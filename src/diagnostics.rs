//! Diagnostics of a processed file: which ones exist, and the plot the
//! composite diagnostic draws for a file of a given shape.
use vstd::prelude::*;
use crate::error::ARPAError;
use crate::external_tools::string_views;
use crate::text::join2;

verus! {

/// The diagnostics the archive knows.
#[derive(Debug, Clone, Copy, PartialEq, Eq, Structural)]
pub enum DiagnosticKind {
    /// The signal-to-noise ratio of the fully scrunched file.
    Snr,
    /// A composite plot of profile, frequency and time.
    Composite,
}

/// The output of a diagnostic.
#[derive(Debug, Clone)]
pub enum DiagnosticOut {
    /// A plot, at this path.
    Plot(String),
    /// A number, as the bit pattern of a single-precision value.
    Value(u32),
}

/// The diagnostic a name stands for.
pub open spec fn kind_of(name: Seq<char>) -> Option<DiagnosticKind> {
    if name == "snr"@ {
        Some(DiagnosticKind::Snr)
    } else if name == "composite"@ {
        Some(DiagnosticKind::Composite)
    } else {
        None
    }
}

/// Looks a diagnostic up by name; an unknown name is an error.
pub fn diagnostic_kind(name: &str) -> (r: Result<DiagnosticKind, ARPAError>)
    ensures
        kind_of(name@) matches Some(k) ==> r == Ok::<DiagnosticKind, ARPAError>(k),
        kind_of(name@) is None ==> (r matches Err(ARPAError::UnknownDiagnostic(n)) && n@ == name@),
{
    if crate::text::same_text(name, "snr") {
        Ok(DiagnosticKind::Snr)
    } else if crate::text::same_text(name, "composite") {
        Ok(DiagnosticKind::Composite)
    } else {
        Err(ARPAError::UnknownDiagnostic(String::from_str(name)))
    }
}

/// The arguments of the statistics tool that give the signal-to-noise ratio
/// of the fully scrunched file.
pub fn snr_args(path: &str) -> (r: Vec<String>)
    ensures
        string_views(r@) == seq!["-Qq"@, "-j"@, "DTFp"@, "-c"@, "snr"@, path@],
{
    let r = vec![
        String::from_str("-Qq"),
        String::from_str("-j"),
        String::from_str("DTFp"),
        String::from_str("-c"),
        String::from_str("snr"),
        String::from_str(path),
    ];
    assert(string_views(r@) =~= seq!["-Qq"@, "-j"@, "DTFp"@, "-c"@, "snr"@, path@]);
    r
}

/// Which panels the composite plot has, by the file's shape.
#[derive(Debug, Clone, Copy, PartialEq, Eq, Structural)]
pub enum PlotLayout {
    /// Profile, frequency and time panels.
    All,
    /// Profile and time panels: a single channel.
    NoFreq,
    /// Profile and frequency panels: a single subintegration.
    NoTime,
    /// The profile alone.
    ProfileOnly,
}

/// The layout of the composite plot of a file with this many
/// subintegrations and channels; a file without either cannot be plotted.
pub fn plot_layout(file: &str, sub_count: u32, channel_count: u32) -> (r: Result<PlotLayout, ARPAError>)
    ensures
        (sub_count == 0 || channel_count == 0) ==> (r matches Err(ARPAError::DiagnosticPlotBadFile(f)) && f@ == file@),
        sub_count > 0 && channel_count > 0 ==> r == Ok::<PlotLayout, ARPAError>(
            if sub_count > 1 && channel_count > 1 {
                PlotLayout::All
            } else if sub_count > 1 {
                PlotLayout::NoFreq
            } else if channel_count > 1 {
                PlotLayout::NoTime
            } else {
                PlotLayout::ProfileOnly
            },
        ),
{
    if sub_count == 0 || channel_count == 0 {
        return Err(ARPAError::DiagnosticPlotBadFile(String::from_str(file)));
    }
    if sub_count > 1 && channel_count > 1 {
        Ok(PlotLayout::All)
    } else if sub_count > 1 {
        Ok(PlotLayout::NoFreq)
    } else if channel_count > 1 {
        Ok(PlotLayout::NoTime)
    } else {
        Ok(PlotLayout::ProfileOnly)
    }
}

/// The arguments of the plotting tool for the composite plot: Profile, frequency and time panels.
pub open spec fn spec_plot_all(path: Seq<char>, outcmd: Seq<char>, info: Seq<char>) -> Seq<Seq<char>> {
    seq![
        "-O"@,
        "-j"@,
        "D"@,
        "-c"@,
        "above:c=,x:range=0:2"@,
        path,
        "-D"@,
        outcmd,
        "-p"@,
        "flux"@,
        "-c"@,
        ":0:x:view=0.575:0.95,"@,
        "y:view=0.7:0.9,"@,
        "subint=I,"@,
        "chan=I,"@,
        "pol=I,"@,
        "x:opt=BCTS,"@,
        "x:lab=,"@,
        "below:l="@,
        "-p"@,
        "freq"@,
        "-c"@,
        ":1:x:view=0.075:0.45,"@,
        "y:view=0.15:0.7,"@,
        "subint=I,"@,
        "pol=I,"@,
        info,
        "cmap:map=plasma"@,
        "-p"@,
        "time"@,
        "-c"@,
        ":2:x:view=0.575:0.95,"@,
        "y:view=0.15:0.7,"@,
        "chan=I,"@,
        "pol=I,"@,
        "cmap:map=plasma"@,
    ]
}

pub fn plot_all(path: &str, outcmd: &str, info: &str) -> (r: Vec<String>)
    ensures
        string_views(r@) == spec_plot_all(path@, outcmd@, info@),
{
    let r = vec![
        String::from_str("-O"),
        String::from_str("-j"),
        String::from_str("D"),
        String::from_str("-c"),
        String::from_str("above:c=,x:range=0:2"),
        String::from_str(path),
        String::from_str("-D"),
        String::from_str(outcmd),
        String::from_str("-p"),
        String::from_str("flux"),
        String::from_str("-c"),
        String::from_str(":0:x:view=0.575:0.95,"),
        String::from_str("y:view=0.7:0.9,"),
        String::from_str("subint=I,"),
        String::from_str("chan=I,"),
        String::from_str("pol=I,"),
        String::from_str("x:opt=BCTS,"),
        String::from_str("x:lab=,"),
        String::from_str("below:l="),
        String::from_str("-p"),
        String::from_str("freq"),
        String::from_str("-c"),
        String::from_str(":1:x:view=0.075:0.45,"),
        String::from_str("y:view=0.15:0.7,"),
        String::from_str("subint=I,"),
        String::from_str("pol=I,"),
        String::from_str(info),
        String::from_str("cmap:map=plasma"),
        String::from_str("-p"),
        String::from_str("time"),
        String::from_str("-c"),
        String::from_str(":2:x:view=0.575:0.95,"),
        String::from_str("y:view=0.15:0.7,"),
        String::from_str("chan=I,"),
        String::from_str("pol=I,"),
        String::from_str("cmap:map=plasma"),
    ];
    assert(string_views(r@) =~= spec_plot_all(path@, outcmd@, info@));
    r
}

/// The arguments of the plotting tool for the composite plot: Profile and time panels, for a file with a single channel.
pub open spec fn spec_plot_no_freq(path: Seq<char>, outcmd: Seq<char>, info: Seq<char>) -> Seq<Seq<char>> {
    seq![
        "-O"@,
        "-j"@,
        "D"@,
        "-c"@,
        "above:c=,x:range=0:2"@,
        path,
        "-D"@,
        outcmd,
        "-p"@,
        "flux"@,
        "-c"@,
        ":0:x:view=0.075:0.95,"@,
        "y:view=0.5:0.7,"@,
        "subint=I,"@,
        "chan=I,"@,
        "pol=I,"@,
        "x:opt=BCTS,"@,
        "x:lab=,"@,
        "below:l=,"@,
        info,
        "-p"@,
        "time"@,
        "-c"@,
        ":1:x:view=0.075:0.95,"@,
        "y:view=0.15:0.5,"@,
        "chan=I,"@,
        "pol=I,"@,
        "cmap:map=plasma"@,
    ]
}

pub fn plot_no_freq(path: &str, outcmd: &str, info: &str) -> (r: Vec<String>)
    ensures
        string_views(r@) == spec_plot_no_freq(path@, outcmd@, info@),
{
    let r = vec![
        String::from_str("-O"),
        String::from_str("-j"),
        String::from_str("D"),
        String::from_str("-c"),
        String::from_str("above:c=,x:range=0:2"),
        String::from_str(path),
        String::from_str("-D"),
        String::from_str(outcmd),
        String::from_str("-p"),
        String::from_str("flux"),
        String::from_str("-c"),
        String::from_str(":0:x:view=0.075:0.95,"),
        String::from_str("y:view=0.5:0.7,"),
        String::from_str("subint=I,"),
        String::from_str("chan=I,"),
        String::from_str("pol=I,"),
        String::from_str("x:opt=BCTS,"),
        String::from_str("x:lab=,"),
        String::from_str("below:l=,"),
        String::from_str(info),
        String::from_str("-p"),
        String::from_str("time"),
        String::from_str("-c"),
        String::from_str(":1:x:view=0.075:0.95,"),
        String::from_str("y:view=0.15:0.5,"),
        String::from_str("chan=I,"),
        String::from_str("pol=I,"),
        String::from_str("cmap:map=plasma"),
    ];
    assert(string_views(r@) =~= spec_plot_no_freq(path@, outcmd@, info@));
    r
}

/// The arguments of the plotting tool for the composite plot: Profile and frequency panels, for a file with a single subintegration.
pub open spec fn spec_plot_no_time(path: Seq<char>, outcmd: Seq<char>, info: Seq<char>) -> Seq<Seq<char>> {
    seq![
        "-O"@,
        "-j"@,
        "D"@,
        "-c"@,
        "above:c=,x:range=0:2"@,
        path,
        "-D"@,
        outcmd,
        "-p"@,
        "flux"@,
        "-c"@,
        ":0:x:view=0.075:0.95,y:view=0.5:0.7,subint=I,chan=I,pol=I,x:opt=BCTS,x:lab=,below:l=,"@ + info,
        "-p"@,
        "freq"@,
        "-c"@,
        ":1:x:view=0.075:0.95,y:view=0.15:0.5,subint=I,pol=I,cmap:map=plasma"@,
    ]
}

pub fn plot_no_time(path: &str, outcmd: &str, info: &str) -> (r: Vec<String>)
    ensures
        string_views(r@) == spec_plot_no_time(path@, outcmd@, info@),
{
    let r = vec![
        String::from_str("-O"),
        String::from_str("-j"),
        String::from_str("D"),
        String::from_str("-c"),
        String::from_str("above:c=,x:range=0:2"),
        String::from_str(path),
        String::from_str("-D"),
        String::from_str(outcmd),
        String::from_str("-p"),
        String::from_str("flux"),
        String::from_str("-c"),
        join2(":0:x:view=0.075:0.95,y:view=0.5:0.7,subint=I,chan=I,pol=I,x:opt=BCTS,x:lab=,below:l=,", info),
        String::from_str("-p"),
        String::from_str("freq"),
        String::from_str("-c"),
        String::from_str(":1:x:view=0.075:0.95,y:view=0.15:0.5,subint=I,pol=I,cmap:map=plasma"),
    ];
    assert(string_views(r@) =~= spec_plot_no_time(path@, outcmd@, info@));
    r
}

/// The arguments of the plotting tool for the composite plot: The profile alone.
pub open spec fn spec_plot_prof_only(path: Seq<char>, outcmd: Seq<char>, info: Seq<char>) -> Seq<Seq<char>> {
    seq![
        "-O"@,
        "-j"@,
        "D"@,
        "-c"@,
        "above:c=,x:range=0:2"@,
        path,
        "-D"@,
        outcmd,
        "-p"@,
        "flux"@,
        "-c"@,
        ":0:x:view=0.075:0.95,"@,
        "y:view=0.15:0.7,"@,
        "subint=I,"@,
        "chan=I,"@,
        "pol=I,"@,
        "below:l=,"@,
        info,
    ]
}

pub fn plot_prof_only(path: &str, outcmd: &str, info: &str) -> (r: Vec<String>)
    ensures
        string_views(r@) == spec_plot_prof_only(path@, outcmd@, info@),
{
    let r = vec![
        String::from_str("-O"),
        String::from_str("-j"),
        String::from_str("D"),
        String::from_str("-c"),
        String::from_str("above:c=,x:range=0:2"),
        String::from_str(path),
        String::from_str("-D"),
        String::from_str(outcmd),
        String::from_str("-p"),
        String::from_str("flux"),
        String::from_str("-c"),
        String::from_str(":0:x:view=0.075:0.95,"),
        String::from_str("y:view=0.15:0.7,"),
        String::from_str("subint=I,"),
        String::from_str("chan=I,"),
        String::from_str("pol=I,"),
        String::from_str("below:l=,"),
        String::from_str(info),
    ];
    assert(string_views(r@) =~= spec_plot_prof_only(path@, outcmd@, info@));
    r
}

/// The arguments of the plotting tool for a layout.
pub fn plot_args(layout: PlotLayout, path: &str, outcmd: &str, info: &str) -> (r: Vec<String>)
    ensures
        string_views(r@) == match layout {
            PlotLayout::All => spec_plot_all(path@, outcmd@, info@),
            PlotLayout::NoFreq => spec_plot_no_freq(path@, outcmd@, info@),
            PlotLayout::NoTime => spec_plot_no_time(path@, outcmd@, info@),
            PlotLayout::ProfileOnly => spec_plot_prof_only(path@, outcmd@, info@),
        },
{
    match layout {
        PlotLayout::All => plot_all(path, outcmd, info),
        PlotLayout::NoFreq => plot_no_freq(path, outcmd, info),
        PlotLayout::NoTime => plot_no_time(path, outcmd, info),
        PlotLayout::ProfileOnly => plot_prof_only(path, outcmd, info),
    }
}

} // verus!
