//! The command lines of the external processing tools. Running them is left
//! to the caller: a tool is run through `/bin/sh -c` with the command line
//! built here, and answers with what it printed.
use vstd::prelude::*;
use crate::config::Config;
use crate::text::{decimal, push_decimal};

verus! {

/// Where a tool is found: by name on the search path when no tool directory
/// is configured, else in that directory.
pub open spec fn tool_path_of(dir: Seq<char>, tool: Seq<char>) -> Seq<char> {
    if dir.len() == 0 {
        tool
    } else {
        dir + "/"@ + tool
    }
}

/// The path of a processing tool.
pub fn tool_path(config: &Config, tool: &str) -> (r: String)
    ensures
        r@ == tool_path_of(config.paths.psrchive@, tool@),
{
    if config.paths.psrchive.unicode_len() == 0 {
        String::from_str(tool)
    } else {
        crate::text::join3(config.paths.psrchive.as_str(), "/", tool)
    }
}

/// The models of a list of strings.
pub open spec fn string_views(v: Seq<String>) -> Seq<Seq<char>> {
    v.map_values(|s: String| s@)
}

/// A program followed by its arguments, each after one space.
pub open spec fn command_line_of(program: Seq<char>, args: Seq<Seq<char>>) -> Seq<char>
    decreases args.len(),
{
    if args.len() == 0 {
        program
    } else {
        command_line_of(program, args.drop_last()) + " "@ + args.last()
    }
}

/// The command line that runs a tool with its arguments.
pub fn command_line(config: &Config, tool: &str, args: &Vec<String>) -> (r: String)
    ensures
        r@ == command_line_of(tool_path_of(config.paths.psrchive@, tool@), string_views(args@)),
{
    let mut r = tool_path(config, tool);
    let mut i: usize = 0;
    while i < args.len()
        invariant
            i <= args@.len(),
            r@ == command_line_of(
                tool_path_of(config.paths.psrchive@, tool@),
                string_views(args@.take(i as int)),
            ),
        decreases args@.len() - i,
    {
        let ghost before = args@.take(i as int);
        r.append(" ");
        r.append(args[i].as_str());
        i = i + 1;
        assert(string_views(args@.take(i as int)).drop_last() =~= string_views(before));
    }
    assert(args@.take(args@.len() as int) =~= args@);
    r
}

/// The decimal text of a count.
pub fn count_text(n: usize) -> (r: String)
    ensures
        r@ == decimal(n as nat),
{
    let mut r = String::new();
    push_decimal(&mut r, n as u128);
    r
}

/// The arguments that scrunch a file in place with the manipulation tool:
/// to `n_channels` channels, and to `n_subints` subintegrations or, when
/// given, subintegrations of `set_t_subints` seconds; optionally to
/// `set_n_bins` bins.
pub open spec fn pam_args_of(
    in_path: Seq<char>,
    n_subints: nat,
    n_channels: nat,
    set_n_bins: Option<nat>,
    set_t_subints: Option<nat>,
) -> Seq<Seq<char>> {
    let time = match set_t_subints {
        Some(t) => seq!["--settsub"@, decimal(t)],
        None => seq!["--setnsub"@, decimal(n_subints)],
    };
    let bins = match set_n_bins {
        Some(b) => seq!["--setnbin"@, decimal(b)],
        None => Seq::empty(),
    };
    seq!["-m"@, "-p"@, "--setnchn"@, decimal(n_channels)] + time + bins + seq![in_path]
}

pub open spec fn opt_nat(v: Option<usize>) -> Option<nat> {
    match v {
        Some(n) => Some(n as nat),
        None => None,
    }
}

/// The arguments of the manipulation tool for scrunching a file.
pub fn manipulate_pam(
    in_path: &str,
    n_subints: usize,
    n_channels: usize,
    set_n_bins: Option<usize>,
    set_t_subints: Option<usize>,
) -> (r: Vec<String>)
    ensures
        string_views(r@) == pam_args_of(
            in_path@,
            n_subints as nat,
            n_channels as nat,
            opt_nat(set_n_bins),
            opt_nat(set_t_subints),
        ),
{
    let mut args = vec![
        String::from_str("-m"),
        String::from_str("-p"),
        String::from_str("--setnchn"),
        count_text(n_channels),
    ];
    match set_t_subints {
        Some(n) => {
            args.push(String::from_str("--settsub"));
            args.push(count_text(n));
        },
        None => {
            args.push(String::from_str("--setnsub"));
            args.push(count_text(n_subints));
        },
    }
    if let Some(n) = set_n_bins {
        args.push(String::from_str("--setnbin"));
        args.push(count_text(n));
    }
    args.push(String::from_str(in_path));
    assert(string_views(args@) =~= pam_args_of(
        in_path@,
        n_subints as nat,
        n_channels as nat,
        opt_nat(set_n_bins),
        opt_nat(set_t_subints),
    ));
    args
}

/// The arguments of the manipulation tool that install a timing model in a
/// file and update its dispersion measure.
pub fn install_ephemeris_args(par_path: &str, path: &str) -> (r: Vec<String>)
    ensures
        string_views(r@) == seq!["-m"@, "-E"@, par_path@, "--update_dm"@, path@],
{
    let r = vec![
        String::from_str("-m"),
        String::from_str("-E"),
        String::from_str(par_path),
        String::from_str("--update_dm"),
        String::from_str(path),
    ];
    assert(string_views(r@) =~= seq!["-m"@, "-E"@, par_path@, "--update_dm"@, path@]);
    r
}

/// The arguments of the measurement tool: tempo2 output with the fitting
/// method and template, the listed columns, an optional diagnostic plot, and
/// the file.
pub open spec fn pat_args_of(fitting: Seq<char>, template: Seq<char>, plot_device: Option<Seq<char>>, path: Seq<char>) -> Seq<Seq<char>> {
    let plot = match plot_device {
        Some(d) => seq!["-t"@, "-K"@, d],
        None => Seq::empty(),
    };
    seq!["-f"@, "tempo2"@, "-A"@, fitting, "-s"@, template, "-C"@, "gof length bw nbin nchan nsubint"@]
        + plot + seq![path]
}

pub fn pat_args(fitting: &str, template: &str, plot_device: Option<&str>, path: &str) -> (r: Vec<String>)
    ensures
        string_views(r@) == pat_args_of(
            fitting@,
            template@,
            match plot_device {
                Some(d) => Some(d@),
                None => None,
            },
            path@,
        ),
{
    let mut r = vec![
        String::from_str("-f"),
        String::from_str("tempo2"),
        String::from_str("-A"),
        String::from_str(fitting),
        String::from_str("-s"),
        String::from_str(template),
        String::from_str("-C"),
        String::from_str("gof length bw nbin nchan nsubint"),
    ];
    if let Some(d) = plot_device {
        r.push(String::from_str("-t"));
        r.push(String::from_str("-K"));
        r.push(String::from_str(d));
    }
    r.push(String::from_str(path));
    assert(string_views(r@) =~= pat_args_of(
        fitting@,
        template@,
        match plot_device {
            Some(d) => Some(d@),
            None => None,
        },
        path@,
    ));
    r
}

/// The position of the first line feed at or after `i`, or the length.
pub open spec fn line_end(s: Seq<char>, i: int) -> int
    decreases s.len() - i,
{
    if i < 0 || i >= s.len() || s[i] == '\n' {
        i
    } else {
        line_end(s, i + 1)
    }
}

/// A line without the carriage return of its `\r\n` ending.
pub open spec fn without_cr(l: Seq<char>) -> Seq<char> {
    if l.len() > 0 && l.last() == '\r' {
        l.drop_last()
    } else {
        l
    }
}

/// The lines from position `i` on: split after each line feed, without the
/// line feed and a carriage return before it; no line after a final feed.
pub open spec fn lines_from(s: Seq<char>, i: int) -> Seq<Seq<char>>
    decreases s.len() - i,
{
    if i < 0 || i >= s.len() {
        Seq::empty()
    } else {
        let j = line_end(s, i);
        if j < i || j >= s.len() {
            seq![s.subrange(i, s.len() as int)]
        } else {
            seq![without_cr(s.subrange(i, j))] + lines_from(s, j + 1)
        }
    }
}

/// The lines of a text, as `str::lines` yields them: split at `\n` or
/// `\r\n`, which are not part of the lines, with the final line ending
/// optional.
pub open spec fn lines_of(s: Seq<char>) -> Seq<Seq<char>> {
    lines_from(s, 0)
}

proof fn lemma_line_end(s: Seq<char>, i: int, j: int)
    requires
        0 <= i <= j <= s.len(),
        forall|k: int| i <= k < j ==> #[trigger] s[k] != '\n',
        j == s.len() || s[j] == '\n',
    ensures
        line_end(s, i) == j,
    decreases j - i,
{
    if i < j {
        lemma_line_end(s, i + 1, j);
    }
}

/// Splits a text into lines, as `str::lines` does.
pub fn lines(s: &str) -> (r: Vec<String>)
    ensures
        string_views(r@) == lines_of(s@),
{
    let n = s.unicode_len();
    let mut r: Vec<String> = Vec::new();
    let mut i: usize = 0;
    while i < n
        invariant
            n == s@.len(),
            i <= n,
            string_views(r@) + lines_from(s@, i as int) == lines_of(s@),
        decreases n - i,
    {
        let mut j: usize = i;
        while j < n && s.get_char(j) != '\n'
            invariant
                n == s@.len(),
                i <= j <= n,
                forall|k: int| i <= k < j ==> #[trigger] s@[k] != '\n',
            decreases n - j,
        {
            j = j + 1;
        }
        proof {
            lemma_line_end(s@, i as int, j as int);
        }
        let ghost before = r@;
        if j == n {
            let line = String::from_str(s.substring_char(i, n));
            r.push(line);
            assert(string_views(r@) =~= string_views(before).push(s@.subrange(i as int, n as int)));
            assert(lines_from(s@, n as int) =~= Seq::<Seq<char>>::empty());
            assert(string_views(r@) + lines_from(s@, n as int) =~= string_views(before) + lines_from(s@, i as int));
            i = n;
        } else {
            let end = if j > i && s.get_char(j - 1) == '\r' { j - 1 } else { j };
            let line = String::from_str(s.substring_char(i, end));
            assert(line@ =~= without_cr(s@.subrange(i as int, j as int)));
            r.push(line);
            assert(string_views(r@) =~= string_views(before).push(line@));
            assert(string_views(r@) + lines_from(s@, j + 1) =~= string_views(before) + lines_from(s@, i as int));
            i = j + 1;
        }
    }
    assert(string_views(r@) + lines_from(s@, i as int) =~= string_views(r@));
    r
}

/// Whether a text starts with a prefix.
pub fn starts_with(s: &str, prefix: &str) -> (r: bool)
    ensures
        r == (prefix@.len() <= s@.len() && s@.take(prefix@.len() as int) == prefix@),
{
    let n = prefix.unicode_len();
    if n > s.unicode_len() {
        return false;
    }
    let head = s.substring_char(0, n);
    assert(head@ =~= s@.take(n as int));
    crate::text::same_text(head, prefix)
}

} // verus!
