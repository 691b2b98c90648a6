//! Progress events of a pipeline run.
use vstd::prelude::*;
use crate::conveniences::{display_elapsed_time, elapsed_text};
use crate::text::{decimal, push_decimal, signed_decimal, decimal_string};

verus! {

/// The stage a pipeline run has reached; one is reported per transition.
#[derive(Debug, Default)]
pub enum Status {
    /// No run is active.
    #[default]
    Idle,
    /// An error occurred.
    Error(String),
    /// The run starts.
    Starting {
        /// Raw file path and identity.
        raw: (String, i32),
        /// Pulsar alias and identity.
        pulsar: (String, i32),
        /// Timing model path and identity, if any.
        ephemeride: Option<(String, i32)>,
        /// Template identity.
        template: i32,
    },
    /// Copying a file from the first path to the second.
    Copying(String, String),
    /// Installing the timing model in the working copy.
    InstallingEphemeride,
    /// Scrunching the working copy.
    Manipulating,
    /// Checking the template's checksum.
    VerifyingTemplate,
    /// Running the measurement tool.
    GeneratingTOAs,
    /// The measurement tool gave this many measurements.
    GotTOAs(usize),
    /// Recording the run.
    LoggingProcess,
    /// Reading the measurements.
    ParsingTOAs,
    /// This many measurements were recorded.
    ArchivedTOAs(usize),
    /// Running this many diagnostics.
    Diagnosing(usize),
    /// A diagnostic finished, successfully or not.
    FinishedDiagnostic {
        diagnostic: String,
        passed: bool,
    },
    /// This many plots of the measurement tool were archived.
    ArchivedTOAPlots(Option<usize>),
    /// The run finished, after this many microseconds.
    Finished(u128),
}


/// The text of an optional timing model in the start report.
pub open spec fn ephemeride_text(e: Option<(String, i32)>) -> Seq<char> {
    match e {
        Some((path, id)) => path@ + "\n               id = "@ + signed_decimal(id as int),
        None => "(None)\n"@,
    }
}

/// The text a progress event is reported with.
pub open spec fn status_text(s: Status) -> Seq<char> {
    match s {
        Status::Idle => "Idling..."@,
        Status::Error(err) => "Encountered error: "@ + err@,
        Status::Starting { raw, pulsar, ephemeride, template } => "Cooking with the following:\n * Raw file:   "@
            + raw.0@ + "\n               id = "@ + signed_decimal(raw.1 as int) + "\n * Pulsar:     "@
            + pulsar.0@ + " \n               id = "@ + signed_decimal(pulsar.1 as int)
            + "\n * Ephemeride: "@ + ephemeride_text(ephemeride) + "\n * Template:   id = "@
            + signed_decimal(template as int) + "\n"@,
        Status::Copying(src, dst) => "Copying from "@ + src@ + " to "@ + dst@,
        Status::InstallingEphemeride => "Installing ephemeride..."@,
        Status::Manipulating => "Manipulating..."@,
        Status::VerifyingTemplate => "Verifying template..."@,
        Status::GeneratingTOAs => "Generating TOAs..."@,
        Status::GotTOAs(n) => "Got "@ + decimal(n as nat) + " TOA(s)!"@,
        Status::LoggingProcess => "Logging process..."@,
        Status::ParsingTOAs => "Parsing TOAs..."@,
        Status::ArchivedTOAs(n) => "Archived "@ + decimal(n as nat) + " TOA(s)!"@,
        Status::Diagnosing(n) => "Running "@ + decimal(n as nat) + " diagnostic(s)..."@,
        Status::FinishedDiagnostic { diagnostic, passed } => "Finished diagnostic "@ + diagnostic@ + if passed {
            " with no problems."@
        } else {
            ", but an error ocurred."@
        },
        Status::ArchivedTOAPlots(Some(n)) => "Archived "@ + decimal(n as nat) + " plot(s) from psrchive::pat."@,
        Status::ArchivedTOAPlots(None) => "Failed to archive plot(s) from psrchive::pat."@,
        Status::Finished(dt) => "Finished in "@ + elapsed_text(dt as nat) + "!"@,
    }
}

impl Status {
    /// The text the event is reported with.
    pub fn message(&self) -> (r: String)
        ensures
            r@ == status_text(*self),
    {
        let mut r = String::new();
        match self {
            Status::Idle => r.append("Idling..."),
            Status::Error(err) => {
                r.append("Encountered error: ");
                r.append(err.as_str());
            },
            Status::Starting { raw, pulsar, ephemeride, template } => {
                r.append("Cooking with the following:\n * Raw file:   ");
                r.append(raw.0.as_str());
                r.append("\n               id = ");
                r.append(decimal_string(raw.1 as i64).as_str());
                r.append("\n * Pulsar:     ");
                r.append(pulsar.0.as_str());
                r.append(" \n               id = ");
                r.append(decimal_string(pulsar.1 as i64).as_str());
                r.append("\n * Ephemeride: ");
                match ephemeride {
                    Some((path, id)) => {
                        r.append(path.as_str());
                        r.append("\n               id = ");
                        r.append(decimal_string(*id as i64).as_str());
                    },
                    None => r.append("(None)\n"),
                }
                r.append("\n * Template:   id = ");
                r.append(decimal_string(*template as i64).as_str());
                r.append("\n");
            },
            Status::Copying(src, dst) => {
                r.append("Copying from ");
                r.append(src.as_str());
                r.append(" to ");
                r.append(dst.as_str());
            },
            Status::InstallingEphemeride => r.append("Installing ephemeride..."),
            Status::Manipulating => r.append("Manipulating..."),
            Status::VerifyingTemplate => r.append("Verifying template..."),
            Status::GeneratingTOAs => r.append("Generating TOAs..."),
            Status::GotTOAs(n) => {
                r.append("Got ");
                push_decimal(&mut r, *n as u128);
                r.append(" TOA(s)!");
            },
            Status::LoggingProcess => r.append("Logging process..."),
            Status::ParsingTOAs => r.append("Parsing TOAs..."),
            Status::ArchivedTOAs(n) => {
                r.append("Archived ");
                push_decimal(&mut r, *n as u128);
                r.append(" TOA(s)!");
            },
            Status::Diagnosing(n) => {
                r.append("Running ");
                push_decimal(&mut r, *n as u128);
                r.append(" diagnostic(s)...");
            },
            Status::FinishedDiagnostic { diagnostic, passed } => {
                r.append("Finished diagnostic ");
                r.append(diagnostic.as_str());
                if *passed {
                    r.append(" with no problems.");
                } else {
                    r.append(", but an error ocurred.");
                }
            },
            Status::ArchivedTOAPlots(Some(n)) => {
                r.append("Archived ");
                push_decimal(&mut r, *n as u128);
                r.append(" plot(s) from psrchive::pat.");
            },
            Status::ArchivedTOAPlots(None) => r.append("Failed to archive plot(s) from psrchive::pat."),
            Status::Finished(dt) => {
                r.append("Finished in ");
                r.append(display_elapsed_time(*dt).as_str());
                r.append("!");
            },
        }
        assert(r@ =~= status_text(*self));
        r
    }
}

} // verus!
