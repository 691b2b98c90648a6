//! The measurement pipeline: one run turns a raw observation into recorded
//! measurements, atomically except for the diagnostics.
//!
//! A run is a machine: `Cook::step` takes the answer to the last action and
//! returns the progress events to report and the next action. The caller
//! performs each action (copying, running a tool, a store operation) and
//! answers with an event. Only the stages from recording the run through the
//! diagnostics act on the store, inside one transaction; the earlier stages
//! act on the filesystem and cannot be rolled back. A failure outside the
//! diagnostics ends the run with `Action::Fail`, and the caller abandons the
//! transaction; a failing diagnostic is reported and skipped.
use vstd::prelude::*;
use crate::config::Config;
use crate::conveniences::parse;
use crate::data_types::{DiagnosticFloat, DiagnosticPlot, Measurement, ParMeta, ProcessInfo, PulsarMeta, RawFileHeader, RawMeta, TOAInfo, TemplateMeta};
use crate::data_types::header::{comma_joined, get_items, header_keys, header_values_read, intended_directory, items_args, spec_header_keys};
use crate::diagnostics::{diagnostic_kind, kind_of, DiagnosticKind, DiagnosticOut};
use crate::error::ARPAError;
use crate::external_tools::{install_ephemeris_args, lines, lines_of, manipulate_pam, opt_nat, pam_args_of, pat_args, pat_args_of, starts_with, string_views};
use crate::conveniences::Parse;
use crate::text::{decimal, decimal_string, join2, join3, push_char, push_decimal, signed_decimal, words_of};

pub mod arguments;
pub mod progress;

pub use arguments::{parse_input_ephemeride, parse_input_raw, parse_input_template, InputRef};
pub use progress::Status;

verus! {

/// A record the run asks the store to insert.
#[derive(Debug)]
pub enum Record {
    Process(ProcessInfo),
    Toa(TOAInfo),
    Float(DiagnosticFloat),
    Plot(DiagnosticPlot),
}

/// What the caller is to do next.
#[derive(Debug)]
pub enum Action {
    /// Read the pulsar with this identity; answer `Pulsar`.
    GetPulsar(i32),
    /// Copy a file; answer `Done`.
    Copy { from: String, to: String },
    /// Run a processing tool with these arguments; answer `Output`.
    RunTool { tool: String, args: Vec<String> },
    /// Compute the content checksum of a file; answer `Checksum`.
    Checksum(String),
    /// Read the text as a fraction of a day and round it to whole seconds;
    /// answer `Seconds`.
    SecondsOfDay(String),
    /// Start the store's transaction; answer `Done`.
    StartTransaction,
    /// Insert a record; answer `Inserted` with its identity.
    Insert(Record),
    /// Read one measurement from each line; answer `Measurements`.
    ParseMeasurements(Vec<String>),
    /// Make `link` a symbolic link to `target`; answer `Done`.
    Link { target: String, link: String },
    /// Run a diagnostic on a file; answer `DiagnosticOutput`.
    RunDiagnostic { name: String, kind: DiagnosticKind, file: String },
    /// Archive a file as `{directory}/{name}`; answer `Archived` with its new path.
    Archive { source: String, directory: String, name: String },
    /// Tell whether a file exists; answer `Exists`.
    Exists(String),
    /// Rename a file; answer `Done`.
    Rename { from: String, to: String },
    /// Commit the store's transaction; answer `Done`.
    Commit,
    /// The run succeeded: report `Status::Finished` with its duration.
    Finish,
    /// The run failed with this error.
    Fail(ARPAError),
}

/// The answer to an action.
#[derive(Debug)]
pub enum Event {
    /// Begins the run.
    Begin,
    Done,
    Pulsar(PulsarMeta),
    Output(String),
    Checksum(u128),
    Seconds(u32),
    Inserted(i32),
    Measurements(Vec<Measurement>),
    DiagnosticOutput(Result<DiagnosticOut, ARPAError>),
    Archived(String),
    Exists(bool),
    /// The action failed.
    Failed(ARPAError),
}

/// Where a run stands: the answer it waits for.
#[derive(Debug, Clone, Copy, PartialEq, Eq, Structural)]
pub enum Stage {
    Begin,
    Pulsar,
    Copy,
    Install,
    Manipulate,
    TemplateChecksum,
    Toas,
    ToaHeader,
    Seconds,
    Transaction,
    ProcessId,
    Measurements,
    ToaIds,
    DiagHeader,
    Link,
    Diagnostic,
    DiagArchive,
    DiagInsert,
    ToaPlotExists,
    Rename,
    PlotInsert,
    Commit,
    Done,
    Failed,
}

/// The order of the stages; a run never goes back.
pub open spec fn rank(s: Stage) -> int {
    match s {
        Stage::Begin => 0,
        Stage::Pulsar => 1,
        Stage::Copy => 2,
        Stage::Install => 3,
        Stage::Manipulate => 4,
        Stage::TemplateChecksum => 5,
        Stage::Toas => 6,
        Stage::ToaHeader => 7,
        Stage::Seconds => 8,
        Stage::Transaction => 9,
        Stage::ProcessId => 10,
        Stage::Measurements => 11,
        Stage::ToaIds => 12,
        Stage::DiagHeader => 13,
        Stage::Link => 14,
        Stage::Diagnostic => 15,
        Stage::DiagArchive => 15,
        Stage::DiagInsert => 15,
        Stage::ToaPlotExists => 16,
        Stage::Rename => 17,
        Stage::PlotInsert => 17,
        Stage::Commit => 18,
        Stage::Done => 19,
        Stage::Failed => 19,
    }
}

/// The stages of one diagnostic, whose failures are skipped.
pub open spec fn is_diagnostic_stage(s: Stage) -> bool {
    s is Diagnostic || s is DiagArchive || s is DiagInsert
}

/// One pipeline run: its inputs and what it has gathered so far.
pub struct Cook {
    pub stage: Stage,
    pub config: Config,
    pub raw: RawMeta,
    pub ephemeride: Option<ParMeta>,
    pub template: TemplateMeta,
    pub diagnostics: bool,
    /// The working copy of the raw file.
    pub work_path: String,
    /// The measurement lines, without the format line.
    pub toa_lines: Vec<String>,
    pub toa_name: String,
    pub channels: i16,
    pub subints: i16,
    pub intmjd: u16,
    pub secs: u32,
    /// The identity of the run's process record.
    pub process_id: i32,
    /// The measurement records to insert.
    pub toas: Vec<TOAInfo>,
    /// The identities of the measurement records inserted so far.
    pub toa_ids: Vec<i32>,
    /// Where the run's diagnostics are kept.
    pub diag_path: String,
    /// The diagnostic being run.
    pub diag_index: usize,
    /// The measurement plot being archived.
    pub plot_index: usize,
}

/// `{n:05}`: the decimal digits of a number, padded with zeros to five.
pub open spec fn padded5(n: nat) -> Seq<char> {
    Seq::new((if decimal(n).len() < 5 { 5 - decimal(n).len() } else { 0 }) as nat, |i: int| '0') + decimal(n)
}

fn push_padded5(s: &mut String, n: u32)
    ensures
        final(s)@ == old(s)@ + padded5(n as nat),
{
    let mut digits = String::new();
    push_decimal(&mut digits, n as u128);
    let len = digits.as_str().unicode_len();
    let mut k: usize = len;
    let ghost start = s@;
    while k < 5
        invariant
            len <= k <= 5 || (len == k && k >= 5),
            len == decimal(n as nat).len(),
            s@ == start + Seq::new((k - len) as nat, |i: int| '0'),
        decreases 5 - k,
    {
        push_char(s, '0');
        k = k + 1;
        assert(s@ =~= start + Seq::new((k - len) as nat, |i: int| '0'));
    }
    s.append(digits.as_str());
    assert(s@ =~= start + padded5(n as nat));
}


/// The diagnostics of a run's configuration, in order.
pub open spec fn diags(c: Cook) -> Seq<String> {
    c.config.behaviour.diagnostics@
}

impl Cook {
    /// What holds of a run at every stage.
    pub open spec fn wf(&self) -> bool {
        &&& is_diagnostic_stage(self.stage) ==> self.diag_index < diags(*self).len()
        &&& (self.stage == Stage::Rename || self.stage == Stage::PlotInsert) ==> self.plot_index < self.toa_ids@.len()
        &&& self.stage == Stage::ToaIds ==> self.toa_ids@.len() < self.toas@.len()
        &&& self.toa_ids@.len() <= self.toas@.len()
        &&& rank(self.stage) >= rank(Stage::DiagHeader) && self.stage != Stage::Failed ==> self.toa_ids@.len()
            == self.toas@.len()
    }
}

/// A run's inputs never change, and each gathered value changes only at the
/// stage that gathers it.
pub open spec fn cook_frame(o: Cook, f: Cook) -> bool {
    &&& f.raw == o.raw
    &&& f.ephemeride == o.ephemeride
    &&& f.template == o.template
    &&& f.diagnostics == o.diagnostics
    &&& f.config == o.config
    &&& f.work_path == o.work_path
    &&& o.stage != Stage::Toas ==> f.toa_lines == o.toa_lines
    &&& o.stage != Stage::ToaHeader ==> (f.channels == o.channels && f.subints == o.subints
        && f.toa_name == o.toa_name && f.intmjd == o.intmjd)
    &&& o.stage != Stage::Seconds ==> f.secs == o.secs
    &&& o.stage != Stage::ProcessId ==> f.process_id == o.process_id
    &&& o.stage != Stage::Measurements ==> f.toas == o.toas
    &&& !(o.stage == Stage::Measurements || o.stage == Stage::ToaIds) ==> f.toa_ids == o.toa_ids
    &&& o.stage != Stage::DiagHeader ==> f.diag_path == o.diag_path
}

/// A tool run with these arguments.
pub open spec fn runs_tool(a: Action, tool: Seq<char>, args: Seq<Seq<char>>) -> bool {
    a matches Action::RunTool { tool: t, args: x } && t@ == tool && string_views(x@) == args
}

/// The arguments of the header tool: no header line, the keys, the file.
pub open spec fn items_args_of(path: Seq<char>, keys: Seq<Seq<char>>) -> Seq<Seq<char>> {
    seq!["-n"@, "-c"@, comma_joined(keys), path]
}

/// The keys read from the working copy after the measurement tool.
pub open spec fn toa_header_keys() -> Seq<Seq<char>> {
    seq!["nchan"@, "nsub"@, "name"@, "intmjd"@, "fracmjd"@]
}

/// The measurement lines of the measurement tool's output: all but the first.
pub open spec fn measurement_lines(out: Seq<char>) -> Seq<Seq<char>> {
    let all = lines_of(out);
    if all.len() > 0 {
        all.drop_first()
    } else {
        all
    }
}

/// The plot device of the measurement tool, when diagnostics are asked for.
pub open spec fn plot_device(c: Cook) -> Option<Seq<char>> {
    if c.diagnostics {
        Some(c.config.paths.temp_dir@ + "/toa_diag.png/PNG"@)
    } else {
        None
    }
}

/// The measurement record of a measurement in a run.
pub open spec fn toa_of(m: Measurement, c: Cook) -> TOAInfo {
    TOAInfo {
        id: 0,
        process_id: c.process_id,
        template_id: c.template.id,
        rawfile_id: c.raw.id,
        pulsar_id: c.raw.pulsar_id,
        observer_id: c.raw.observer_id,
        toa_int: m.toa_int,
        toa_frac: m.toa_frac,
        toa_err: m.toa_err,
        frequency: m.frequency,
    }
}

/// The process record of a run.
pub open spec fn is_process_of(p: ProcessInfo, c: Cook) -> bool {
    &&& p.id == 0
    &&& p.raw_id == c.raw.id
    &&& p.par_id == (match c.ephemeride {
        Some(e) => Some(e.id),
        None => None::<i32>,
    })
    &&& p.template_id == c.template.id
    &&& p.n_channels == c.channels
    &&& p.n_subints == c.subints
    &&& p.method@ == c.config.behaviour.toa_fitting@
    &&& p.user_id == 0
}

/// The report of the start of a run and of the copy of its raw file.
pub open spec fn starting_reported(c: Cook, p: PulsarMeta, st: Seq<Status>) -> bool {
    &&& st.len() == 2
    &&& st[0] matches Status::Starting { raw, pulsar, ephemeride, template } && raw.0@ == c.raw.file_path@
        && raw.1 == c.raw.id && pulsar.0@ == p.alias@ && pulsar.1 == c.raw.pulsar_id && template
        == c.template.id && (ephemeride is Some <==> c.ephemeride is Some) && (c.ephemeride matches Some(e)
        ==> ephemeride->Some_0.0@ == e.file_path@ && ephemeride->Some_0.1 == e.id)
    &&& st[1] matches Status::Copying(a, b) && a@ == c.raw.file_path@ && b@ == c.work_path@
}

/// Scrunching the working copy: to 4 channels and one subintegration.
pub open spec fn manipulated(f: Cook, prior: Seq<Status>, r: (Vec<Status>, Action)) -> bool {
    &&& f.stage == Stage::Manipulate
    &&& r.0@ == prior.push(Status::Manipulating)
    &&& runs_tool(r.1, "pam"@, pam_args_of(f.work_path@, 1, 4, None, None))
}

/// After the measurement records inserted so far: the next one, or, when all
/// are in, the report and then the diagnostics' header or the commit.
pub open spec fn toas_continued(f: Cook, prior: Seq<Status>, r: (Vec<Status>, Action)) -> bool {
    let k = f.toa_ids@.len();
    if k < f.toas@.len() {
        &&& f.stage == Stage::ToaIds
        &&& r.0@ == prior
        &&& r.1 == Action::Insert(Record::Toa(f.toas@[k as int]))
    } else {
        let done = prior.push(Status::ArchivedTOAs(k as usize));
        if f.diagnostics {
            &&& f.stage == Stage::DiagHeader
            &&& r.0@ == done.push(Status::Diagnosing(diags(f).len() as usize))
            &&& runs_tool(r.1, "vap"@, items_args_of(f.work_path@, spec_header_keys()))
        } else {
            &&& f.stage == Stage::Commit
            &&& r.0@ == done
            &&& r.1 is Commit
        }
    }
}

/// From diagnostic `from` on: each unknown one is reported as failed, then
/// the first known one is run; after the last, the measurement tool's plot is
/// looked for.
pub open spec fn diagnostics_resumed(f: Cook, from: int, prior: Seq<Status>, r: (Vec<Status>, Action)) -> bool {
    let d = diags(f);
    let j = if f.stage == Stage::Diagnostic {
        f.diag_index as int
    } else {
        d.len() as int
    };
    &&& f.stage == Stage::Diagnostic || f.stage == Stage::ToaPlotExists
    &&& from <= j <= d.len()
    &&& forall|k: int| from <= k < j ==> kind_of(#[trigger] d[k]@) is None
    &&& r.0@.len() == prior.len() + (j - from)
    &&& r.0@.subrange(0, prior.len() as int) == prior
    &&& forall|t: int|
        0 <= t < j - from ==> (#[trigger] r.0@[prior.len() + t] matches Status::FinishedDiagnostic { diagnostic, passed }
            && diagnostic@ == d[from + t]@ && !passed)
    &&& f.stage == Stage::Diagnostic ==> (j < d.len() && kind_of(d[j]@) is Some && (r.1 matches Action::RunDiagnostic {
        name,
        kind,
        file,
    } && name@ == d[j]@ && Some(kind) == kind_of(d[j]@) && file@ == f.work_path@))
    &&& f.stage == Stage::ToaPlotExists ==> (r.1 matches Action::Exists(p) && p@ == f.config.paths.temp_dir@
        + "/toa_diag.png"@)
}

/// The end of the current diagnostic: reported, then the next ones.
pub open spec fn diagnostic_ended(o: Cook, f: Cook, passed: bool, r: (Vec<Status>, Action)) -> bool {
    &&& r.0@.len() > 0
    &&& r.0@[0] matches Status::FinishedDiagnostic { diagnostic, passed: p } && diagnostic@
        == diags(o)[o.diag_index as int]@ && p == passed
    &&& diagnostics_resumed(f, o.diag_index + 1, r.0@.take(1), r)
}

/// Where the measurement tool's plot of measurement `k` goes.
pub open spec fn plot_destination_of(c: Cook, k: int) -> Seq<char> {
    c.diag_path@ + "/"@ + c.toa_name@ + "_"@ + padded5(c.intmjd as nat) + "_"@ + padded5(c.secs as nat)
        + ".TOA"@ + signed_decimal(c.toa_ids@[k] as int) + ".png"@
}

/// Where the measurement tool leaves its plot of measurement `k`.
pub open spec fn plot_source_of(c: Cook, k: int) -> Seq<char> {
    let base = c.config.paths.temp_dir@ + "/toa_diag.png"@;
    if k == 0 {
        base
    } else {
        base + "_"@ + decimal((k + 1) as nat)
    }
}

/// Renaming the measurement tool's plot of measurement `k`.
pub open spec fn renames_plot(f: Cook, r: (Vec<Status>, Action)) -> bool {
    &&& f.stage == Stage::Rename
    &&& r.0@.len() == 0
    &&& r.1 matches Action::Rename { from, to } && from@ == plot_source_of(f, f.plot_index as int) && to@
        == plot_destination_of(f, f.plot_index as int)
}

/// An event that does not answer the last action ends the run.
pub open spec fn out_of_step(f: Cook, r: (Vec<Status>, Action)) -> bool {
    f.stage == Stage::Failed && r.0@.len() == 0 && r.1 matches Action::Fail(ARPAError::OutOfStep)
}

/// One step of a run: from its state and the answer to its last action, its
/// next state, the progress events it reports, in order, and its next action.
pub open spec fn cook_step(o: Cook, e: Event, f: Cook, r: (Vec<Status>, Action)) -> bool {
    if e is Failed && o.stage != Stage::Done && !is_diagnostic_stage(o.stage) {
        f.stage == Stage::Failed && r.0@.len() == 0 && r.1 == Action::Fail(e->Failed_0)
    } else {
        match o.stage {
            Stage::Begin => f.stage == Stage::Pulsar && r.0@.len() == 0 && r.1 == Action::GetPulsar(o.raw.pulsar_id),
            Stage::Pulsar => match e {
                Event::Pulsar(p) => f.stage == Stage::Copy && starting_reported(o, p, r.0@) && (r.1 matches Action::Copy {
                    from,
                    to,
                } && from@ == o.raw.file_path@ && to@ == o.work_path@),
                _ => out_of_step(f, r),
            },
            Stage::Copy => match e {
                Event::Done => match o.ephemeride {
                    Some(par) => f.stage == Stage::Install && r.0@ == seq![Status::InstallingEphemeride]
                        && runs_tool(r.1, "pam"@, seq!["-m"@, "-E"@, par.file_path@, "--update_dm"@, o.work_path@]),
                    None => manipulated(f, Seq::empty(), r),
                },
                _ => out_of_step(f, r),
            },
            Stage::Install => match e {
                Event::Output(_) => manipulated(f, Seq::empty(), r),
                _ => out_of_step(f, r),
            },
            Stage::Manipulate => match e {
                Event::Output(_) => f.stage == Stage::TemplateChecksum && r.0@ == seq![Status::VerifyingTemplate]
                    && (r.1 matches Action::Checksum(p) && p@ == o.template.file_path@),
                _ => out_of_step(f, r),
            },
            Stage::TemplateChecksum => match e {
                Event::Checksum(c) => if c != o.template.checksum {
                    f.stage == Stage::Failed && r.0@.len() == 0 && (r.1 matches Action::Fail(ARPAError::ChecksumFail(p))
                        && p@ == o.template.file_path@)
                } else {
                    f.stage == Stage::Toas && r.0@ == seq![Status::GeneratingTOAs] && runs_tool(
                        r.1,
                        "pat"@,
                        pat_args_of(o.config.behaviour.toa_fitting@, o.template.file_path@, plot_device(o), o.work_path@),
                    )
                },
                _ => out_of_step(f, r),
            },
            Stage::Toas => match e {
                Event::Output(out) => if !(8 <= out@.len() && out@.take(8) == "FORMAT 1"@) {
                    f.stage == Stage::Failed && r.0@.len() == 0 && (r.1 matches Action::Fail(
                        ARPAError::TOAExpectedFormat(t),
                    ) && t@ == out@)
                } else {
                    f.stage == Stage::ToaHeader && r.0@.len() == 0 && string_views(f.toa_lines@)
                        == measurement_lines(out@) && runs_tool(r.1, "vap"@, items_args_of(o.work_path@, toa_header_keys()))
                },
                _ => out_of_step(f, r),
            },
            Stage::ToaHeader => match e {
                Event::Output(out) => {
                    let w = words_of(out@);
                    if w.len() != 6 {
                        f.stage == Stage::Failed && (r.1 matches Action::Fail(ARPAError::VapKeyCount(a, b)) && a == 6
                            && b == w.len())
                    } else if i16::spec_parse(w[1]) is None || i16::spec_parse(w[2]) is None || u16::spec_parse(w[4]) is None {
                        f.stage == Stage::Failed && r.1 matches Action::Fail(ARPAError::ParseFailed(_, _))
                    } else {
                        &&& f.stage == Stage::Seconds
                        &&& r.0@.len() == 0
                        &&& Some(f.channels) == i16::spec_parse(w[1])
                        &&& Some(f.subints) == i16::spec_parse(w[2])
                        &&& f.toa_name@ == w[3]
                        &&& Some(f.intmjd) == u16::spec_parse(w[4])
                        &&& r.1 matches Action::SecondsOfDay(t) && t@ == w[5]
                    }
                },
                _ => out_of_step(f, r),
            },
            Stage::Seconds => match e {
                Event::Seconds(secs) => f.stage == Stage::Transaction && f.secs == secs && r.0@ == seq![
                    Status::GotTOAs(o.toa_lines@.len() as usize),
                ] && r.1 is StartTransaction,
                _ => out_of_step(f, r),
            },
            Stage::Transaction => match e {
                Event::Done => f.stage == Stage::ProcessId && r.0@ == seq![Status::LoggingProcess] && (r.1 matches Action::Insert(
                    Record::Process(p),
                ) && is_process_of(p, o)),
                _ => out_of_step(f, r),
            },
            Stage::ProcessId => match e {
                Event::Inserted(id) => f.stage == Stage::Measurements && f.process_id == id && r.0@ == seq![
                    Status::ParsingTOAs,
                ] && (r.1 matches Action::ParseMeasurements(ls) && string_views(ls@) == string_views(o.toa_lines@)),
                _ => out_of_step(f, r),
            },
            Stage::Measurements => match e {
                Event::Measurements(ms) => {
                    &&& f.toas@.len() == ms@.len()
                    &&& forall|j: int| 0 <= j < ms@.len() ==> #[trigger] f.toas@[j] == toa_of(ms@[j], o)
                    &&& f.toa_ids@.len() == 0
                    &&& toas_continued(f, Seq::empty(), r)
                },
                _ => out_of_step(f, r),
            },
            Stage::ToaIds => match e {
                Event::Inserted(id) => f.toa_ids@ == o.toa_ids@.push(id) && toas_continued(f, Seq::empty(), r),
                _ => out_of_step(f, r),
            },
            Stage::DiagHeader => match e {
                Event::Output(out) => if !header_values_read(words_of(out@)) {
                    f.stage == Stage::Failed && r.1 is Fail
                } else {
                    let w = words_of(out@);
                    let id = signed_decimal(o.process_id as int);
                    &&& f.stage == Stage::Link
                    &&& r.0@.len() == 0
                    &&& f.diag_path@ == intended_directory(o.config.paths.rawfile_storage@, w[7], w[6], w[17], w[19])
                        + "/process"@ + id
                    &&& r.1 matches Action::Link { target, link } && target@ == f.diag_path@ && link@
                        == o.config.paths.diagnostics_dir@ + "/process"@ + id
                },
                _ => out_of_step(f, r),
            },
            Stage::Link => match e {
                Event::Done => diagnostics_resumed(f, 0, Seq::empty(), r),
                _ => out_of_step(f, r),
            },
            Stage::Diagnostic => match e {
                Event::DiagnosticOutput(Ok(DiagnosticOut::Plot(p))) => f.stage == Stage::DiagArchive && f.diag_index
                    == o.diag_index && r.0@.len() == 0 && (r.1 matches Action::Archive { source, directory, name }
                    && source@ == p@ && directory@ == o.diag_path@ && name@ == diags(o)[o.diag_index as int]@
                    + ".png"@),
                Event::DiagnosticOutput(Ok(DiagnosticOut::Value(x))) => f.stage == Stage::DiagInsert && f.diag_index
                    == o.diag_index && r.0@.len() == 0 && (r.1 matches Action::Insert(Record::Float(d)) && d.id == 0
                    && d.process == o.process_id && d.diagnostic@ == diags(o)[o.diag_index as int]@ && d.result == x),
                _ => diagnostic_ended(o, f, false, r),
            },
            Stage::DiagArchive => match e {
                Event::Archived(path) => f.stage == Stage::DiagInsert && f.diag_index == o.diag_index && r.0@.len()
                    == 0 && (r.1 matches Action::Insert(Record::Plot(d)) && d.id == 0 && d.process == o.process_id
                    && d.diagnostic@ == diags(o)[o.diag_index as int]@ && d.filepath@ == path@),
                _ => diagnostic_ended(o, f, false, r),
            },
            Stage::DiagInsert => match e {
                Event::Inserted(_) => diagnostic_ended(o, f, true, r),
                _ => diagnostic_ended(o, f, false, r),
            },
            Stage::ToaPlotExists => match e {
                Event::Exists(found) => if !found {
                    f.stage == Stage::Commit && r.0@.len() == 0 && r.1 is Commit
                } else if o.toa_ids@.len() == 0 {
                    f.stage == Stage::Commit && r.0@ == seq![Status::ArchivedTOAPlots(Some(0))] && r.1 is Commit
                } else {
                    f.plot_index == 0 && renames_plot(f, r)
                },
                _ => out_of_step(f, r),
            },
            Stage::Rename => match e {
                Event::Done => f.stage == Stage::PlotInsert && f.plot_index == o.plot_index && r.0@.len() == 0 && (r.1 matches Action::Insert(
                    Record::Plot(d),
                ) && d.id == 0 && d.process == o.process_id && d.diagnostic@ == "Prof-Temp Residuals"@
                    && d.filepath@ == plot_destination_of(o, o.plot_index as int)),
                _ => out_of_step(f, r),
            },
            Stage::PlotInsert => match e {
                Event::Inserted(_) => if o.plot_index + 1 < o.toa_ids@.len() {
                    f.plot_index == o.plot_index + 1 && renames_plot(f, r)
                } else {
                    f.stage == Stage::Commit && r.0@ == seq![Status::ArchivedTOAPlots(Some(o.toa_ids@.len() as usize))]
                        && r.1 is Commit
                },
                _ => out_of_step(f, r),
            },
            Stage::Commit => match e {
                Event::Done => f.stage == Stage::Done && r.0@.len() == 0 && r.1 is Finish,
                _ => out_of_step(f, r),
            },
            Stage::Done => f.stage == Stage::Done && r.0@.len() == 0 && r.1 is Finish,
            Stage::Failed => f.stage == Stage::Failed && r.0@.len() == 0 && r.1 matches Action::Fail(ARPAError::OutOfStep),
        }
    }
}

/// A run records its process exactly when the transaction has started, and
/// commits only once every measurement record has been inserted.
pub proof fn lemma_commit_after_measurements(o: Cook, e: Event, f: Cook, r: (Vec<Status>, Action))
    requires
        o.wf(),
        step_post(o, e, f, r),
    ensures
        r.1 matches Action::Insert(Record::Process(_)) ==> o.stage == Stage::Transaction,
        r.1 is Commit ==> f.toa_ids@.len() == f.toas@.len(),
{
}

/// A failing diagnostic is reported as failed and skipped: the run goes on to
/// the next diagnostic, records nothing for the failed one, and does not end.
pub proof fn lemma_failed_diagnostic_skipped(o: Cook, e: Event, f: Cook, r: (Vec<Status>, Action))
    requires
        o.wf(),
        step_post(o, e, f, r),
        is_diagnostic_stage(o.stage),
        e is Failed || e matches Event::DiagnosticOutput(Err(_)),
    ensures
        !(r.1 is Fail),
        !(r.1 is Insert),
        r.0@.len() > 0,
        r.0@[0] matches Status::FinishedDiagnostic { diagnostic, passed } && !passed && diagnostic@ == diags(o)[o.diag_index as int]@,
        f.stage == Stage::Diagnostic || f.stage == Stage::ToaPlotExists,
{
}

/// What every step ensures.
pub open spec fn step_post(o: Cook, e: Event, f: Cook, r: (Vec<Status>, Action)) -> bool {
    &&& cook_step(o, e, f, r)
    &&& cook_frame(o, f)
    &&& f.wf()
    &&& rank(f.stage) >= rank(o.stage)
    &&& (r.1 is Fail <==> f.stage == Stage::Failed)
}

/// A single progress event.
fn one(s: Status) -> (r: Vec<Status>)
    ensures
        r@ == seq![s],
{
    let r = vec![s];
    assert(r@ =~= seq![s]);
    r
}

/// A copy of a list of strings.
fn copy_strings(v: &Vec<String>) -> (r: Vec<String>)
    ensures
        r@ == v@,
{
    let mut r: Vec<String> = Vec::new();
    let mut i: usize = 0;
    while i < v.len()
        invariant
            i <= v@.len(),
            r@ == v@.take(i as int),
        decreases v@.len() - i,
    {
        r.push(v[i].clone());
        i = i + 1;
        assert(r@ =~= v@.take(i as int));
    }
    assert(v@.take(v@.len() as int) =~= v@);
    r
}

impl Cook {
    /// A run on a raw file with an optional timing model and a template,
    /// with or without diagnostics, under a configuration.
    pub fn new(
        config: Config,
        raw: RawMeta,
        ephemeride: Option<ParMeta>,
        template: TemplateMeta,
        diagnostics: bool,
    ) -> (r: Self)
        ensures
            r.stage == Stage::Begin,
            r.wf(),
            r.config == config,
            r.raw == raw,
            r.ephemeride == ephemeride,
            r.template == template,
            r.diagnostics == diagnostics,
            r.work_path@ == config.paths.temp_dir@ + "/working.ar"@,
            r.toas@.len() == 0,
            r.toa_ids@.len() == 0,
    {
        let work_path = join2(config.paths.temp_dir.as_str(), "/working.ar");
        Cook {
            stage: Stage::Begin,
            config,
            raw,
            ephemeride,
            template,
            diagnostics,
            work_path,
            toa_lines: Vec::new(),
            toa_name: String::new(),
            channels: 0,
            subints: 0,
            intmjd: 0,
            secs: 0,
            process_id: 0,
            toas: Vec::new(),
            toa_ids: Vec::new(),
            diag_path: String::new(),
            diag_index: 0,
            plot_index: 0,
        }
    }

    /// The stage the run has reached.
    pub fn current_stage(&self) -> (r: Stage)
        ensures
            r == self.stage,
    {
        self.stage
    }

    fn fail(&mut self, e: ARPAError) -> (r: (Vec<Status>, Action))
        ensures
            *final(self) == (Cook { stage: Stage::Failed, ..*old(self) }),
            r.0@.len() == 0,
            r.1 == Action::Fail(e),
    {
        self.stage = Stage::Failed;
        (Vec::new(), Action::Fail(e))
    }

    /// Takes the answer to the last action; returns the progress events to
    /// report, in order, and the next action.
    pub fn step(&mut self, event: Event) -> (r: (Vec<Status>, Action))
        requires
            old(self).wf(),
        ensures
            step_post(*old(self), event, *final(self), r),
    {
        let diagnostic_stage = self.stage == Stage::Diagnostic || self.stage == Stage::DiagArchive
            || self.stage == Stage::DiagInsert;
        let is_failed = match &event {
            Event::Failed(_) => true,
            _ => false,
        };
        if is_failed && self.stage != Stage::Done && !diagnostic_stage {
            return match event {
                Event::Failed(e) => self.fail(e),
                _ => self.fail(ARPAError::OutOfStep),
            };
        }
        match self.stage {
            Stage::Begin => self.on_begin(event),
            Stage::Pulsar => self.on_pulsar(event),
            Stage::Copy => self.on_copy(event),
            Stage::Install => match event {
                Event::Output(_) => self.manipulate(Vec::new()),
                _ => self.fail(ARPAError::OutOfStep),
            },
            Stage::Manipulate => match event {
                Event::Output(_) => {
                    self.stage = Stage::TemplateChecksum;
                    (one(Status::VerifyingTemplate), Action::Checksum(self.template.file_path.clone()))
                },
                _ => self.fail(ARPAError::OutOfStep),
            },
            Stage::TemplateChecksum => self.on_template_checksum(event),
            Stage::Toas => self.on_toas(event),
            Stage::ToaHeader => self.on_toa_header(event),
            Stage::Seconds => match event {
                Event::Seconds(s) => {
                    self.secs = s;
                    self.stage = Stage::Transaction;
                    (one(Status::GotTOAs(self.toa_lines.len())), Action::StartTransaction)
                },
                _ => self.fail(ARPAError::OutOfStep),
            },
            Stage::Transaction => match event {
                Event::Done => {
                    let meta = ProcessInfo::new(
                        0,
                        &self.raw,
                        self.ephemeride.as_ref(),
                        &self.template,
                        self.channels,
                        self.subints,
                        self.config.behaviour.toa_fitting.as_str(),
                    );
                    self.stage = Stage::ProcessId;
                    (one(Status::LoggingProcess), Action::Insert(Record::Process(meta)))
                },
                _ => self.fail(ARPAError::OutOfStep),
            },
            Stage::ProcessId => match event {
                Event::Inserted(id) => {
                    self.process_id = id;
                    self.stage = Stage::Measurements;
                    (one(Status::ParsingTOAs), Action::ParseMeasurements(copy_strings(&self.toa_lines)))
                },
                _ => self.fail(ARPAError::OutOfStep),
            },
            Stage::Measurements => self.on_measurements(event),
            Stage::ToaIds => match event {
                Event::Inserted(id) => {
                    self.toa_ids.push(id);
                    self.next_toa(Vec::new())
                },
                _ => self.fail(ARPAError::OutOfStep),
            },
            Stage::DiagHeader => self.on_diag_header(event),
            Stage::Link => match event {
                Event::Done => {
                    self.diag_index = 0;
                    self.next_diagnostic(Vec::new())
                },
                _ => self.fail(ARPAError::OutOfStep),
            },
            Stage::Diagnostic => self.on_diagnostic(event),
            Stage::DiagArchive => match event {
                Event::Archived(path) => {
                    let meta = DiagnosticPlot {
                        id: 0,
                        process: self.process_id,
                        diagnostic: self.diagnostic_name(),
                        filepath: path,
                    };
                    self.stage = Stage::DiagInsert;
                    (Vec::new(), Action::Insert(Record::Plot(meta)))
                },
                _ => self.diagnostic_finished(false),
            },
            Stage::DiagInsert => match event {
                Event::Inserted(_) => self.diagnostic_finished(true),
                _ => self.diagnostic_finished(false),
            },
            Stage::ToaPlotExists => match event {
                Event::Exists(found) => {
                    if !found {
                        self.stage = Stage::Commit;
                        return (Vec::new(), Action::Commit);
                    }
                    if self.toa_ids.len() == 0 {
                        self.stage = Stage::Commit;
                        return (one(Status::ArchivedTOAPlots(Some(0))), Action::Commit);
                    }
                    self.plot_index = 0;
                    self.stage = Stage::Rename;
                    (Vec::new(), self.rename_action())
                },
                _ => self.fail(ARPAError::OutOfStep),
            },
            Stage::Rename => match event {
                Event::Done => {
                    let meta = DiagnosticPlot {
                        id: 0,
                        process: self.process_id,
                        diagnostic: String::from_str("Prof-Temp Residuals"),
                        filepath: self.plot_destination(),
                    };
                    self.stage = Stage::PlotInsert;
                    (Vec::new(), Action::Insert(Record::Plot(meta)))
                },
                _ => self.fail(ARPAError::OutOfStep),
            },
            Stage::PlotInsert => match event {
                Event::Inserted(_) => {
                    if self.plot_index < self.toa_ids.len() - 1 {
                        self.plot_index = self.plot_index + 1;
                        self.stage = Stage::Rename;
                        return (Vec::new(), self.rename_action());
                    }
                    self.stage = Stage::Commit;
                    (one(Status::ArchivedTOAPlots(Some(self.toa_ids.len()))), Action::Commit)
                },
                _ => self.fail(ARPAError::OutOfStep),
            },
            Stage::Commit => match event {
                Event::Done => {
                    self.stage = Stage::Done;
                    (Vec::new(), Action::Finish)
                },
                _ => self.fail(ARPAError::OutOfStep),
            },
            Stage::Done => (Vec::new(), Action::Finish),
            Stage::Failed => (Vec::new(), Action::Fail(ARPAError::OutOfStep)),
        }
    }

    fn on_begin(&mut self, event: Event) -> (r: (Vec<Status>, Action))
        requires
            old(self).stage == Stage::Begin,
            old(self).wf(),
            !(event is Failed),
        ensures
            step_post(*old(self), event, *final(self), r),
    {
        self.stage = Stage::Pulsar;
        let r = (Vec::new(), Action::GetPulsar(self.raw.pulsar_id));
        assert(r.0@.len() == 0);
        r
    }

    fn on_pulsar(&mut self, event: Event) -> (r: (Vec<Status>, Action))
        requires
            old(self).stage == Stage::Pulsar,
            old(self).wf(),
            !(event is Failed),
        ensures
            step_post(*old(self), event, *final(self), r),
    {
        match event {
            Event::Pulsar(p) => {
                let ephemeride = match &self.ephemeride {
                    Some(e) => Some((e.file_path.clone(), e.id)),
                    None => None,
                };
                let starting = Status::Starting {
                    raw: (self.raw.file_path.clone(), self.raw.id),
                    pulsar: (p.alias, self.raw.pulsar_id),
                    ephemeride,
                    template: self.template.id,
                };
                let copying = Status::Copying(self.raw.file_path.clone(), self.work_path.clone());
                self.stage = Stage::Copy;
                let st = vec![starting, copying];
                (st, Action::Copy { from: self.raw.file_path.clone(), to: self.work_path.clone() })
            },
            _ => self.fail(ARPAError::OutOfStep),
        }
    }

    fn on_copy(&mut self, event: Event) -> (r: (Vec<Status>, Action))
        requires
            old(self).stage == Stage::Copy,
            old(self).wf(),
            !(event is Failed),
        ensures
            step_post(*old(self), event, *final(self), r),
    {
        match event {
            Event::Done => {
                let install = match &self.ephemeride {
                    Some(e) => Some(install_ephemeris_args(e.file_path.as_str(), self.work_path.as_str())),
                    None => None,
                };
                match install {
                    Some(args) => {
                        self.stage = Stage::Install;
                        let st = vec![Status::InstallingEphemeride];
                        assert(st@ =~= seq![Status::InstallingEphemeride]);
                        (st, Action::RunTool { tool: String::from_str("pam"), args })
                    },
                    None => self.manipulate(Vec::new()),
                }
            },
            _ => self.fail(ARPAError::OutOfStep),
        }
    }

    fn manipulate(&mut self, prior: Vec<Status>) -> (r: (Vec<Status>, Action))
        ensures
            *final(self) == (Cook { stage: Stage::Manipulate, ..*old(self) }),
            manipulated(*final(self), prior@, r),
    {
        let args = manipulate_pam(self.work_path.as_str(), 1, 4, None, None);
        assert(opt_nat(None) == None::<nat>);
        self.stage = Stage::Manipulate;
        let mut st = prior;
        st.push(Status::Manipulating);
        (st, Action::RunTool { tool: String::from_str("pam"), args })
    }

    fn on_template_checksum(&mut self, event: Event) -> (r: (Vec<Status>, Action))
        requires
            old(self).stage == Stage::TemplateChecksum,
            old(self).wf(),
            !(event is Failed),
        ensures
            step_post(*old(self), event, *final(self), r),
    {
        match event {
            Event::Checksum(c) => {
                if c != self.template.checksum {
                    return self.fail(ARPAError::ChecksumFail(self.template.file_path.clone()));
                }
                let device = join2(self.config.paths.temp_dir.as_str(), "/toa_diag.png/PNG");
                let dev = if self.diagnostics { Some(device.as_str()) } else { None };
                assert(match dev { Some(d) => Some(d@), None => None::<Seq<char>> } == plot_device(*self));
                let args = pat_args(
                    self.config.behaviour.toa_fitting.as_str(),
                    self.template.file_path.as_str(),
                    dev,
                    self.work_path.as_str(),
                );
                self.stage = Stage::Toas;
                (one(Status::GeneratingTOAs), Action::RunTool { tool: String::from_str("pat"), args })
            },
            _ => self.fail(ARPAError::OutOfStep),
        }
    }

    fn on_toas(&mut self, event: Event) -> (r: (Vec<Status>, Action))
        requires
            old(self).stage == Stage::Toas,
            old(self).wf(),
            !(event is Failed),
        ensures
            step_post(*old(self), event, *final(self), r),
    {
        match event {
            Event::Output(out) => {
                proof {
                    reveal_strlit("FORMAT 1");
                }
                if !starts_with(out.as_str(), "FORMAT 1") {
                    return self.fail(ARPAError::TOAExpectedFormat(out));
                }
                let mut all = lines(out.as_str());
                let ghost whole = all@;
                if all.len() > 0 {
                    all.remove(0);
                    assert(string_views(all@) =~= string_views(whole).drop_first());
                }
                self.toa_lines = all;
                let keys = vec!["nchan", "nsub", "name", "intmjd", "fracmjd"];
                assert(crate::table::column_names(keys@) =~= toa_header_keys());
                let args = items_args(self.work_path.as_str(), &keys);
                assert(string_views(args@) =~= items_args_of(self.work_path@, toa_header_keys()));
                self.stage = Stage::ToaHeader;
                (Vec::new(), Action::RunTool { tool: String::from_str("vap"), args })
            },
            _ => self.fail(ARPAError::OutOfStep),
        }
    }

    fn on_toa_header(&mut self, event: Event) -> (r: (Vec<Status>, Action))
        requires
            old(self).stage == Stage::ToaHeader,
            old(self).wf(),
            !(event is Failed),
        ensures
            step_post(*old(self), event, *final(self), r),
    {
        match event {
            Event::Output(out) => {
                let values = match get_items(out.as_str(), 5) {
                    Ok(v) => v,
                    Err(e) => return self.fail(e),
                };
                let ghost w = words_of(out@);
                assert(w[1] == values@[1]@ && w[2] == values@[2]@ && w[3] == values@[3]@);
                assert(w[4] == values@[4]@ && w[5] == values@[5]@);
                let channels: i16 = match parse(values[1]) {
                    Ok(v) => v,
                    Err(e) => return self.fail(e),
                };
                let subints: i16 = match parse(values[2]) {
                    Ok(v) => v,
                    Err(e) => return self.fail(e),
                };
                let intmjd: u16 = match parse(values[4]) {
                    Ok(v) => v,
                    Err(e) => return self.fail(e),
                };
                self.channels = channels;
                self.subints = subints;
                self.intmjd = intmjd;
                self.toa_name = String::from_str(values[3]);
                self.stage = Stage::Seconds;
                (Vec::new(), Action::SecondsOfDay(String::from_str(values[5])))
            },
            _ => self.fail(ARPAError::OutOfStep),
        }
    }

    fn on_measurements(&mut self, event: Event) -> (r: (Vec<Status>, Action))
        requires
            old(self).stage == Stage::Measurements,
            old(self).wf(),
            !(event is Failed),
        ensures
            step_post(*old(self), event, *final(self), r),
    {
        match event {
            Event::Measurements(ms) => {
                let mut toas: Vec<TOAInfo> = Vec::new();
                let mut i: usize = 0;
                while i < ms.len()
                    invariant
                        i <= ms@.len(),
                        toas@.len() == i,
                        forall|j: int| 0 <= j < i ==> #[trigger] toas@[j] == toa_of(ms@[j], *self),
                    decreases ms@.len() - i,
                {
                    toas.push(TOAInfo::extract(
                        &ms[i],
                        self.raw.pulsar_id,
                        self.raw.observer_id,
                        self.process_id,
                        self.template.id,
                        self.raw.id,
                    ));
                    i = i + 1;
                }
                self.toas = toas;
                self.toa_ids = Vec::new();
                self.next_toa(Vec::new())
            },
            _ => self.fail(ARPAError::OutOfStep),
        }
    }

    /// Inserts the next measurement, or, when all are in, goes on to the
    /// diagnostics or the commit.
    fn next_toa(&mut self, statuses: Vec<Status>) -> (r: (Vec<Status>, Action))
        requires
            old(self).toa_ids@.len() <= old(self).toas@.len(),
        ensures
            toas_continued(*final(self), statuses@, r),
            *final(self) == (Cook { stage: final(self).stage, ..*old(self) }),
    {
        let k = self.toa_ids.len();
        if k < self.toas.len() {
            let toa = self.toas[k];
            self.stage = Stage::ToaIds;
            return (statuses, Action::Insert(Record::Toa(toa)));
        }
        let mut statuses = statuses;
        statuses.push(Status::ArchivedTOAs(k));
        if self.diagnostics {
            statuses.push(Status::Diagnosing(self.config.behaviour.diagnostics.len()));
            let keys = header_keys();
            let args = items_args(self.work_path.as_str(), &keys);
            assert(string_views(args@) =~= items_args_of(self.work_path@, spec_header_keys()));
            self.stage = Stage::DiagHeader;
            return (statuses, Action::RunTool { tool: String::from_str("vap"), args });
        }
        self.stage = Stage::Commit;
        (statuses, Action::Commit)
    }

    fn on_diag_header(&mut self, event: Event) -> (r: (Vec<Status>, Action))
        requires
            old(self).stage == Stage::DiagHeader,
            old(self).wf(),
            !(event is Failed),
        ensures
            step_post(*old(self), event, *final(self), r),
    {
        match event {
            Event::Output(out) => {
                let header = match RawFileHeader::get(self.work_path.as_str(), out.as_str()) {
                    Ok(h) => h,
                    Err(e) => return self.fail(e),
                };
                let dir = header.get_intended_directory(&self.config);
                let id = decimal_string(self.process_id as i64);
                self.diag_path = join3(dir.as_str(), "/process", id.as_str());
                let link = join3(self.config.paths.diagnostics_dir.as_str(), "/process", id.as_str());
                self.stage = Stage::Link;
                (Vec::new(), Action::Link { target: self.diag_path.clone(), link })
            },
            _ => self.fail(ARPAError::OutOfStep),
        }
    }

    fn on_diagnostic(&mut self, event: Event) -> (r: (Vec<Status>, Action))
        requires
            old(self).stage == Stage::Diagnostic,
            old(self).wf(),
        ensures
            step_post(*old(self), event, *final(self), r),
    {
        match event {
            Event::DiagnosticOutput(Ok(DiagnosticOut::Plot(path))) => {
                let name = self.diagnostic_name();
                let file = join2(name.as_str(), ".png");
                self.stage = Stage::DiagArchive;
                (Vec::new(), Action::Archive { source: path, directory: self.diag_path.clone(), name: file })
            },
            Event::DiagnosticOutput(Ok(DiagnosticOut::Value(x))) => {
                let meta = DiagnosticFloat {
                    id: 0,
                    process: self.process_id,
                    diagnostic: self.diagnostic_name(),
                    result: x,
                };
                self.stage = Stage::DiagInsert;
                (Vec::new(), Action::Insert(Record::Float(meta)))
            },
            _ => self.diagnostic_finished(false),
        }
    }

    /// The name of the current diagnostic.
    fn diagnostic_name(&self) -> (r: String)
        requires
            self.diag_index < diags(*self).len(),
        ensures
            r@ == diags(*self)[self.diag_index as int]@,
    {
        self.config.behaviour.diagnostics[self.diag_index].clone()
    }

    /// Reports the current diagnostic and goes on to the next.
    fn diagnostic_finished(&mut self, passed: bool) -> (r: (Vec<Status>, Action))
        requires
            old(self).diag_index < diags(*old(self)).len(),
        ensures
            diagnostic_ended(*old(self), *final(self), passed, r),
            *final(self) == (Cook { stage: final(self).stage, diag_index: final(self).diag_index, ..*old(self) }),
            final(self).stage == Stage::Diagnostic ==> final(self).diag_index < diags(*final(self)).len(),
    {
        let status = Status::FinishedDiagnostic { diagnostic: self.diagnostic_name(), passed };
        let n = self.config.behaviour.diagnostics.len();
        self.diag_index = self.diag_index + 1;
        let prior = vec![status];
        let r = self.next_diagnostic(prior);
        assert(r.0@.take(1) =~= r.0@.subrange(0, 1));
        r
    }

    /// Runs the next known diagnostic, reporting unknown ones as failed; after
    /// the last, looks for the measurement tool's plots.
    fn next_diagnostic(&mut self, reported: Vec<Status>) -> (r: (Vec<Status>, Action))
        requires
            old(self).diag_index <= diags(*old(self)).len(),
        ensures
            diagnostics_resumed(*final(self), old(self).diag_index as int, reported@, r),
            *final(self) == (Cook { stage: final(self).stage, diag_index: final(self).diag_index, ..*old(self) }),
            final(self).stage == Stage::Diagnostic ==> final(self).diag_index < diags(*final(self)).len(),
    {
        let ghost from = self.diag_index as int;
        let ghost prior = reported@;
        let mut statuses = reported;
        let n = self.config.behaviour.diagnostics.len();
        while self.diag_index < n
            invariant
                n == diags(*self).len(),
                from == old(self).diag_index,
                prior == reported@,
                from <= self.diag_index <= n,
                *self == (Cook { diag_index: self.diag_index, ..*old(self) }),
                forall|k: int| from <= k < self.diag_index ==> kind_of(#[trigger] diags(*self)[k]@) is None,
                statuses@.len() == prior.len() + (self.diag_index - from),
                statuses@.subrange(0, prior.len() as int) == prior,
                forall|t: int|
                    0 <= t < self.diag_index - from ==> (#[trigger] statuses@[prior.len() + t] matches Status::FinishedDiagnostic {
                        diagnostic,
                        passed,
                    } && diagnostic@ == diags(*self)[from + t]@ && !passed),
            decreases n - self.diag_index,
        {
            let name = self.config.behaviour.diagnostics[self.diag_index].clone();
            match diagnostic_kind(name.as_str()) {
                Ok(kind) => {
                    assert(kind_of(name@) == Some(kind));
                    self.stage = Stage::Diagnostic;
                    let r = (statuses, Action::RunDiagnostic { name, kind, file: self.work_path.clone() });
                    return r;
                },
                Err(_) => {
                    let ghost before = statuses@;
                    statuses.push(Status::FinishedDiagnostic { diagnostic: name, passed: false });
                    assert(statuses@.subrange(0, prior.len() as int) =~= before.subrange(0, prior.len() as int));
                    self.diag_index = self.diag_index + 1;
                },
            }
        }
        self.stage = Stage::ToaPlotExists;
        (statuses, Action::Exists(self.toa_plot_path()))
    }

    fn toa_plot_path(&self) -> (r: String)
        ensures
            r@ == self.config.paths.temp_dir@ + "/toa_diag.png"@,
    {
        join2(self.config.paths.temp_dir.as_str(), "/toa_diag.png")
    }

    /// Where the measurement tool's plot of the current measurement goes.
    fn plot_destination(&self) -> (r: String)
        requires
            self.plot_index < self.toa_ids@.len(),
        ensures
            r@ == plot_destination_of(*self, self.plot_index as int),
    {
        let mut r = self.diag_path.clone();
        r.append("/");
        r.append(self.toa_name.as_str());
        r.append("_");
        push_padded5(&mut r, self.intmjd as u32);
        r.append("_");
        push_padded5(&mut r, self.secs);
        r.append(".TOA");
        r.append(decimal_string(self.toa_ids[self.plot_index] as i64).as_str());
        r.append(".png");
        r
    }

    /// Renames the measurement tool's plot of the current measurement.
    fn rename_action(&self) -> (r: Action)
        requires
            self.plot_index < self.toa_ids@.len(),
        ensures
            r matches Action::Rename { from, to } && from@ == plot_source_of(*self, self.plot_index as int) && to@
                == plot_destination_of(*self, self.plot_index as int),
    {
        let base = self.toa_plot_path();
        let from = if self.plot_index == 0 {
            base
        } else {
            let mut f = base;
            f.append("_");
            push_decimal(&mut f, self.plot_index as u128 + 1);
            f
        };
        Action::Rename { from, to: self.plot_destination() }
    }
}

} // verus!
