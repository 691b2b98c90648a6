//! Metadata of a stored raw observation file.
use vstd::prelude::*;
use crate::archivist::{Archivist, Statement};
use crate::config::Config;
use crate::data_types::header::{comma_joined, header_holds, header_keys, header_values_read, intended_directory, items_args, spec_header_keys};
use crate::data_types::pulsar_meta::valid_name;
use crate::data_types::telescope::{is_obs_system_filter, is_telescope_filter};
use crate::error::ArchivistError;
use crate::text::{lower_of, words_of};
use crate::data_types::{ObsSystem, PulsarMeta, RawFileHeader, TelescopeId};
use crate::error::ARPAError;
use crate::table::{Table, TableItem};
use crate::text::{join3, to_lowercase};
use crate::value::{Predicate, Term};
use crate::value::{Cell, Value, cells, get_checksum, get_i32, get_text, is_i32_cell};

verus! {

/// The metadata of a stored raw observation file.
#[derive(Debug, Clone)]
pub struct RawMeta {
    /// Identity assigned by the store; 0 before insertion.
    pub id: i32,
    /// The path to the file. Unique.
    pub file_path: String,
    /// The 128-bit content checksum of the file. Unique.
    pub checksum: u128,
    /// The pulsar observed.
    pub pulsar_id: i32,
    /// The observing system that produced the file.
    pub observer_id: i32,
}

/// What the caller is to do next while taking a raw file in.
#[derive(Debug)]
pub enum IntakeAction {
    /// Tell whether the file exists; answer `Exists`.
    Exists(String),
    /// Run a processing tool; answer `Output`.
    RunTool { tool: String, args: Vec<String> },
    /// Run a read; answer `Row` with the identity and cells of the row found.
    Read(Statement),
    /// Insert a new pulsar; answer `Inserted`.
    InsertPulsar(PulsarMeta),
    /// Archive the file as `{directory}/{name}`; answer `Placed`.
    Archive { source: String, directory: String, name: String },
    /// Compute the file's content checksum; answer `Checksum`.
    Checksum(String),
    /// The record of the file, ready for insertion.
    Done(RawMeta),
    /// Taking the file in failed.
    Fail(ARPAError),
}

/// The answer to an intake action.
#[derive(Debug)]
pub enum IntakeEvent {
    Begin,
    Exists(bool),
    Output(String),
    Row(Option<(i32, Vec<Value>)>),
    Inserted(i32),
    /// The file's new path and its checksum.
    Placed(String, u128),
    Checksum(u128),
    Failed(ARPAError),
}

#[derive(Debug, Clone, Copy, PartialEq, Eq, Structural)]
pub enum IntakeStage {
    Begin,
    Exists,
    Header,
    Telescope,
    ObsSystem,
    Pulsar,
    PulsarInsert,
    Place,
    Done,
    Failed,
}

pub open spec fn intake_rank(s: IntakeStage) -> int {
    match s {
        IntakeStage::Begin => 0,
        IntakeStage::Exists => 1,
        IntakeStage::Header => 2,
        IntakeStage::Telescope => 3,
        IntakeStage::ObsSystem => 4,
        IntakeStage::Pulsar => 5,
        IntakeStage::PulsarInsert => 6,
        IntakeStage::Place => 7,
        IntakeStage::Done => 8,
        IntakeStage::Failed => 8,
    }
}

/// Taking a raw file into the archive: check that it exists, read its
/// header, find its observing system and pulsar (adding the pulsar when so
/// configured), then archive it or only compute its checksum.
pub struct RawIntake {
    pub stage: IntakeStage,
    pub config: Config,
    pub path: String,
    pub header: Option<RawFileHeader>,
    pub observer_id: i32,
    pub pulsar_id: i32,
}

/// The header of an intake that has read it.
pub open spec fn hdr(c: RawIntake) -> RawFileHeader {
    c.header->Some_0
}

/// A read of one row of a table with a filter.
pub open spec fn reads(a: IntakeAction, table: Table) -> bool {
    a matches IntakeAction::Read(Statement::Select { table: t, filter: Some(_), limit_one, .. }) && t == table && limit_one
}

/// The filter of an intake's read.
pub open spec fn read_filter(a: IntakeAction) -> Predicate {
    a->Read_0->Select_filter->Some_0
}

/// After the pulsar is known: archive the file where its header says, or
/// only compute its checksum.
pub open spec fn placing(f: RawIntake, r: IntakeAction) -> bool {
    let h = hdr(f);
    &&& f.stage == IntakeStage::Place
    &&& f.config.behaviour.archive_rawfiles ==> (r matches IntakeAction::Archive { source, directory, name }
        && source@ == f.path@ && directory@ == intended_directory(
        f.config.paths.rawfile_storage@,
        h.psr_name@,
        h.telescope@,
        h.receiver@,
        h.backend@,
    ) && name@ == h.filename@)
    &&& !f.config.behaviour.archive_rawfiles ==> (r matches IntakeAction::Checksum(p) && p@ == f.path@)
}

pub open spec fn intake_out_of_step(f: RawIntake, r: IntakeAction) -> bool {
    f.stage == IntakeStage::Failed && r matches IntakeAction::Fail(ARPAError::OutOfStep)
}

/// One step of an intake: from its state and the answer to its last action,
/// its next state and action.
pub open spec fn intake_step(o: RawIntake, e: IntakeEvent, f: RawIntake, r: IntakeAction) -> bool {
    if e is Failed {
        f.stage == IntakeStage::Failed && r == IntakeAction::Fail(e->Failed_0)
    } else {
        match o.stage {
            IntakeStage::Begin => f.stage == IntakeStage::Exists && (r matches IntakeAction::Exists(p) && p@ == o.path@),
            IntakeStage::Exists => match e {
                IntakeEvent::Exists(true) => f.stage == IntakeStage::Header && (r matches IntakeAction::RunTool { tool, args }
                    && tool@ == "vap"@ && crate::external_tools::string_views(args@) == seq![
                    "-n"@,
                    "-c"@,
                    comma_joined(spec_header_keys()),
                    o.path@,
                ]),
                IntakeEvent::Exists(false) => f.stage == IntakeStage::Failed && (r matches IntakeAction::Fail(
                    ARPAError::MissingFileOrDirectory(p),
                ) && p@ == o.path@),
                _ => intake_out_of_step(f, r),
            },
            IntakeStage::Header => match e {
                IntakeEvent::Output(out) => if !header_values_read(words_of(out@)) {
                    f.stage == IntakeStage::Failed && r is Fail
                } else {
                    &&& f.stage == IntakeStage::Telescope
                    &&& f.header is Some
                    &&& header_holds(hdr(f), o.path@, words_of(out@))
                    &&& reads(r, Table::Telescopes)
                    &&& is_telescope_filter(read_filter(r), lower_of(hdr(f).telescope@))
                },
                _ => intake_out_of_step(f, r),
            },
            IntakeStage::Telescope => match e {
                IntakeEvent::Row(None) => f.stage == IntakeStage::Failed && (r matches IntakeAction::Fail(
                    ARPAError::CantFind(m),
                ) && m@ == "Telescope with name or abbreviation '"@ + lower_of(hdr(o).telescope@) + "'"@),
                IntakeEvent::Row(Some((id, cs))) => if !TelescopeId::spec_decodable(cells(cs@)) {
                    f.stage == IntakeStage::Failed && (r matches IntakeAction::Fail(ARPAError::ArchivistError(
                        ArchivistError::MalformedRow(t, i),
                    )) && t == Table::Telescopes && i == id)
                } else {
                    &&& f.stage == IntakeStage::ObsSystem
                    &&& reads(r, Table::ObsSystems)
                    &&& is_obs_system_filter(
                        read_filter(r),
                        id,
                        lower_of(hdr(o).receiver@),
                        lower_of(hdr(o).backend@),
                    )
                },
                _ => intake_out_of_step(f, r),
            },
            IntakeStage::ObsSystem => match e {
                IntakeEvent::Row(Some((id, _))) => {
                    &&& f.stage == IntakeStage::Pulsar
                    &&& f.observer_id == id
                    &&& reads(r, Table::PulsarMetas)
                    &&& !read_filter(r).any
                    &&& read_filter(r).terms@.len() == 1
                    &&& read_filter(r).terms@[0].column@ == "j_name"@
                    &&& read_filter(r).terms@[0].value@ == Cell::Text(hdr(o).psr_name@)
                },
                IntakeEvent::Row(None) => f.stage == IntakeStage::Failed && (r matches IntakeAction::Fail(
                    ARPAError::CantFind(m),
                ) && m@ == "Obssystem in registry... \n(Telescope: "@ + hdr(o).telescope@ + ", frontend: "@
                    + hdr(o).receiver@ + ", backend: "@ + hdr(o).backend@ + ")."@),
                _ => intake_out_of_step(f, r),
            },
            IntakeStage::Pulsar => match e {
                IntakeEvent::Row(Some((id, _))) => f.pulsar_id == id && placing(f, r),
                IntakeEvent::Row(None) => if !o.config.behaviour.auto_add_pulsars {
                    f.stage == IntakeStage::Failed && (r matches IntakeAction::Fail(ARPAError::CantFind(m)) && m@
                        == "Pulsar with name '"@ + hdr(o).psr_name@ + "', and we're not set to auto-add."@)
                } else if !valid_name(hdr(o).psr_name@) {
                    f.stage == IntakeStage::Failed && r matches IntakeAction::Fail(ARPAError::MalformedInput(_))
                } else {
                    f.stage == IntakeStage::PulsarInsert && (r matches IntakeAction::InsertPulsar(p) && p.id == 0
                        && p.alias@ == hdr(o).psr_name@ && p.j_name is None && p.b_name is None && p.j2000_ra is None
                        && p.j2000_dec is None && p.master_parfile_id is None)
                },
                _ => intake_out_of_step(f, r),
            },
            IntakeStage::PulsarInsert => match e {
                IntakeEvent::Inserted(id) => f.pulsar_id == id && placing(f, r),
                _ => intake_out_of_step(f, r),
            },
            IntakeStage::Place => match e {
                IntakeEvent::Placed(path, c) => f.stage == IntakeStage::Done && (r matches IntakeAction::Done(m)
                    && m.id == 0 && m.file_path@ == path@ && m.checksum == c && m.pulsar_id == o.pulsar_id
                    && m.observer_id == o.observer_id),
                IntakeEvent::Checksum(c) => f.stage == IntakeStage::Done && (r matches IntakeAction::Done(m)
                    && m.id == 0 && m.file_path@ == o.path@ && m.checksum == c && m.pulsar_id == o.pulsar_id
                    && m.observer_id == o.observer_id),
                _ => intake_out_of_step(f, r),
            },
            IntakeStage::Done | IntakeStage::Failed => intake_out_of_step(f, r),
        }
    }
}

impl RawIntake {
    /// What holds at every stage: the header is known once it has been read.
    pub open spec fn wf(&self) -> bool {
        intake_rank(self.stage) >= intake_rank(IntakeStage::Telescope) && intake_rank(self.stage) <= intake_rank(
            IntakeStage::Place,
        ) ==> self.header is Some
    }
}

/// What every step of an intake ensures.
pub open spec fn intake_post(o: RawIntake, e: IntakeEvent, f: RawIntake, r: IntakeAction) -> bool {
    &&& intake_step(o, e, f, r)
    &&& f.wf()
    &&& f.config == o.config
    &&& f.path == o.path
    &&& intake_rank(f.stage) >= intake_rank(o.stage)
    &&& (r is Fail <==> f.stage == IntakeStage::Failed)
    &&& (o.stage != IntakeStage::Header ==> f.header == o.header)
    &&& (o.stage != IntakeStage::ObsSystem ==> f.observer_id == o.observer_id)
    &&& (!(o.stage == IntakeStage::Pulsar || o.stage == IntakeStage::PulsarInsert) ==> f.pulsar_id == o.pulsar_id)
}

impl RawIntake {
    pub fn new(config: Config, path: &str) -> (r: Self)
        ensures
            r.stage == IntakeStage::Begin,
            r.wf(),
            r.config == config,
            r.path@ == path@,
    {
        RawIntake {
            stage: IntakeStage::Begin,
            config,
            path: String::from_str(path),
            header: None,
            observer_id: 0,
            pulsar_id: 0,
        }
    }

    fn fail(&mut self, e: ARPAError) -> (r: IntakeAction)
        ensures
            *final(self) == (RawIntake { stage: IntakeStage::Failed, ..*old(self) }),
            r == IntakeAction::Fail(e),
    {
        self.stage = IntakeStage::Failed;
        IntakeAction::Fail(e)
    }

    /// Takes the answer to the last action and returns the next one.
    pub fn step(&mut self, event: IntakeEvent) -> (r: IntakeAction)
        requires
            old(self).wf(),
        ensures
            intake_post(*old(self), event, *final(self), r),
    {
        let is_failed = match &event {
            IntakeEvent::Failed(_) => true,
            _ => false,
        };
        if is_failed {
            return match event {
                IntakeEvent::Failed(e) => self.fail(e),
                _ => self.fail(ARPAError::OutOfStep),
            };
        }
        match self.stage {
            IntakeStage::Begin => self.on_begin(event),
            IntakeStage::Exists => self.on_exists(event),
            IntakeStage::Header => self.on_header(event),
            IntakeStage::Telescope => self.on_telescope(event),
            IntakeStage::ObsSystem => self.on_obs_system(event),
            IntakeStage::Pulsar => self.on_pulsar(event),
            IntakeStage::PulsarInsert => self.on_pulsar_insert(event),
            IntakeStage::Place => self.on_place(event),
            IntakeStage::Done | IntakeStage::Failed => self.fail(ARPAError::OutOfStep),
        }
    }

    fn on_begin(&mut self, event: IntakeEvent) -> (r: IntakeAction)
        requires
            old(self).stage == IntakeStage::Begin,
            !(event is Failed),
        ensures
            intake_post(*old(self), event, *final(self), r),
    {
        self.stage = IntakeStage::Exists;
        IntakeAction::Exists(self.path.clone())
    }

    fn on_exists(&mut self, event: IntakeEvent) -> (r: IntakeAction)
        requires
            old(self).stage == IntakeStage::Exists,
            old(self).wf(),
            !(event is Failed),
        ensures
            intake_post(*old(self), event, *final(self), r),
    {
        match event {
            IntakeEvent::Exists(true) => {
                self.stage = IntakeStage::Header;
                let keys = header_keys();
                let args = items_args(self.path.as_str(), &keys);
                assert(crate::external_tools::string_views(args@) =~= seq![
                    "-n"@,
                    "-c"@,
                    comma_joined(spec_header_keys()),
                    self.path@,
                ]);
                IntakeAction::RunTool { tool: String::from_str("vap"), args }
            },
            IntakeEvent::Exists(false) => self.fail(ARPAError::MissingFileOrDirectory(self.path.clone())),
            _ => self.fail(ARPAError::OutOfStep),
        }
    }

    fn on_pulsar_insert(&mut self, event: IntakeEvent) -> (r: IntakeAction)
        requires
            old(self).stage == IntakeStage::PulsarInsert,
            old(self).wf(),
            !(event is Failed),
        ensures
            intake_post(*old(self), event, *final(self), r),
    {
        match event {
            IntakeEvent::Inserted(id) => {
                self.pulsar_id = id;
                self.place()
            },
            _ => self.fail(ARPAError::OutOfStep),
        }
    }

    fn on_place(&mut self, event: IntakeEvent) -> (r: IntakeAction)
        requires
            old(self).stage == IntakeStage::Place,
            old(self).wf(),
            !(event is Failed),
        ensures
            intake_post(*old(self), event, *final(self), r),
    {
        match event {
            IntakeEvent::Placed(path, checksum) => {
                self.stage = IntakeStage::Done;
                IntakeAction::Done(RawMeta::new(path, checksum, self.pulsar_id, self.observer_id))
            },
            IntakeEvent::Checksum(checksum) => {
                self.stage = IntakeStage::Done;
                IntakeAction::Done(RawMeta::new(self.path.clone(), checksum, self.pulsar_id, self.observer_id))
            },
            _ => self.fail(ARPAError::OutOfStep),
        }
    }

    fn on_header(&mut self, event: IntakeEvent) -> (r: IntakeAction)
        requires
            old(self).stage == IntakeStage::Header,
            !(event is Failed),
        ensures
            intake_post(*old(self), event, *final(self), r),
    {
        match event {
            IntakeEvent::Output(out) => {
                let header = match RawFileHeader::get(self.path.as_str(), out.as_str()) {
                    Ok(h) => h,
                    Err(e) => return self.fail(e),
                };
                let telescope = to_lowercase(header.telescope.as_str());
                self.header = Some(header);
                self.stage = IntakeStage::Telescope;
                IntakeAction::Read(ObsSystem::telescope_query(telescope.as_str()))
            },
            _ => self.fail(ARPAError::OutOfStep),
        }
    }

    fn on_telescope(&mut self, event: IntakeEvent) -> (r: IntakeAction)
        requires
            old(self).stage == IntakeStage::Telescope,
            old(self).wf(),
            !(event is Failed),
        ensures
            intake_post(*old(self), event, *final(self), r),
    {
        let header = match &self.header {
            Some(h) => h.clone(),
            None => return self.fail(ARPAError::OutOfStep),
        };
        match event {
            IntakeEvent::Row(row) => {
                let telescope = match row {
                    Some((id, cells)) => match Archivist::decode::<TelescopeId>(id, &cells) {
                        Ok(t) => Some(t),
                        Err(e) => return self.fail(ARPAError::ArchivistError(e)),
                    },
                    None => None,
                };
                let name = to_lowercase(self.header_ref().telescope.as_str());
                let receiver = to_lowercase(self.header_ref().receiver.as_str());
                let backend = to_lowercase(self.header_ref().backend.as_str());
                match ObsSystem::find(telescope, name.as_str(), receiver.as_str(), backend.as_str()) {
                    Ok(q) => {
                        self.stage = IntakeStage::ObsSystem;
                        IntakeAction::Read(q)
                    },
                    Err(e) => self.fail(e),
                }
            },
            _ => self.fail(ARPAError::OutOfStep),
        }
    }

    fn header_ref(&self) -> (r: &RawFileHeader)
        requires
            self.header is Some,
        ensures
            *r == hdr(*self),
    {
        self.header.as_ref().unwrap()
    }

    fn on_obs_system(&mut self, event: IntakeEvent) -> (r: IntakeAction)
        requires
            old(self).stage == IntakeStage::ObsSystem,
            old(self).wf(),
            !(event is Failed),
        ensures
            intake_post(*old(self), event, *final(self), r),
    {
        match event {
            IntakeEvent::Row(Some((id, _))) => {
                self.observer_id = id;
                let psr_name = self.header_ref().psr_name.clone();
                let terms = vec![Term { column: "j_name", value: Value::Text(psr_name) }];
                self.stage = IntakeStage::Pulsar;
                IntakeAction::Read(Archivist::find::<PulsarMeta>(Predicate { terms, any: false }))
            },
            IntakeEvent::Row(None) => {
                let h = self.header_ref();
                let mut m = String::from_str("Obssystem in registry... \n(Telescope: ");
                m.append(h.telescope.as_str());
                m.append(", frontend: ");
                m.append(h.receiver.as_str());
                m.append(", backend: ");
                m.append(h.backend.as_str());
                m.append(").");
                self.fail(ARPAError::CantFind(m))
            },
            _ => self.fail(ARPAError::OutOfStep),
        }
    }

    fn on_pulsar(&mut self, event: IntakeEvent) -> (r: IntakeAction)
        requires
            old(self).stage == IntakeStage::Pulsar,
            old(self).wf(),
            !(event is Failed),
        ensures
            intake_post(*old(self), event, *final(self), r),
    {
        match event {
            IntakeEvent::Row(Some((id, _))) => {
                self.pulsar_id = id;
                self.place()
            },
            IntakeEvent::Row(None) => {
                let psr_name = self.header_ref().psr_name.clone();
                if !self.config.behaviour.auto_add_pulsars {
                    return self.fail(ARPAError::CantFind(join3(
                        "Pulsar with name '",
                        psr_name.as_str(),
                        "', and we're not set to auto-add.",
                    )));
                }
                let mut meta = PulsarMeta::null();
                meta.alias = psr_name;
                match meta.verify() {
                    Ok(()) => {
                        self.stage = IntakeStage::PulsarInsert;
                        IntakeAction::InsertPulsar(meta)
                    },
                    Err(e) => self.fail(e),
                }
            },
            _ => self.fail(ARPAError::OutOfStep),
        }
    }

    /// Archives the file where its header says, or, when raw files are not
    /// archived, only computes its checksum.
    fn place(&mut self) -> (r: IntakeAction)
        requires
            old(self).header is Some,
        ensures
            *final(self) == (RawIntake { stage: IntakeStage::Place, ..*old(self) }),
            placing(*final(self), r),
    {
        let h = self.header_ref();
        let directory = h.get_intended_directory(&self.config);
        let name = h.filename.clone();
        self.stage = IntakeStage::Place;
        if self.config.behaviour.archive_rawfiles {
            IntakeAction::Archive { source: self.path.clone(), directory, name }
        } else {
            IntakeAction::Checksum(self.path.clone())
        }
    }
}

impl RawMeta {
    /// Starts taking the raw file at `path` into the archive; the returned
    /// intake is driven with `RawIntake::step` and ends in the file's record.
    pub fn prepare_raw_meta(config: Config, path: &str) -> (r: RawIntake)
        ensures
            r.stage == IntakeStage::Begin,
            r.wf(),
            r.config == config,
            r.path@ == path@,
    {
        RawIntake::new(config, path)
    }

    /// A not yet persisted record of a raw file.
    pub fn new(file_path: String, checksum: u128, pulsar_id: i32, observer_id: i32) -> (r: Self)
        ensures
            r.id == 0,
            r.file_path@ == file_path@,
            r.checksum == checksum,
            r.pulsar_id == pulsar_id,
            r.observer_id == observer_id,
    {
        RawMeta { id: 0, file_path, checksum, pulsar_id, observer_id }
    }
}

impl TableItem for RawMeta {
    open spec fn spec_table() -> Table {
        Table::RawMetas
    }

    open spec fn spec_columns() -> Seq<Seq<char>> {
        seq!["file_path"@, "checksum"@, "pulsar_id"@, "observer_id"@]
    }

    open spec fn spec_unique() -> Seq<int> {
        seq![0int, 1int]
    }

    open spec fn spec_id(&self) -> i32 {
        self.id
    }

    open spec fn spec_row(&self) -> Seq<Cell> {
        seq![
            Cell::Text(self.file_path@),
            Cell::Checksum(self.checksum),
            Cell::Int(self.pulsar_id as int),
            Cell::Int(self.observer_id as int),
        ]
    }

    open spec fn spec_decodable(row: Seq<Cell>) -> bool {
        &&& row.len() == 4
        &&& row[0] is Text
        &&& row[1] is Checksum
        &&& is_i32_cell(row[2])
        &&& is_i32_cell(row[3])
    }

    fn table() -> (r: Table) {
        Table::RawMetas
    }

    fn id(&self) -> (r: i32) {
        self.id
    }

    fn insert_columns() -> (r: Vec<&'static str>) {
        let r = vec!["file_path", "checksum", "pulsar_id", "observer_id"];
        assert(crate::table::column_names(r@) =~= Self::spec_columns());
        r
    }

    fn unique_columns() -> (r: Vec<usize>) {
        vec![0, 1]
    }

    fn insert_values(&self) -> (r: Vec<Value>) {
        let r = vec![
            Value::Text(self.file_path.clone()),
            Value::Checksum(self.checksum),
            Value::Int(self.pulsar_id as i64),
            Value::Int(self.observer_id as i64),
        ];
        assert(cells(r@) =~= self.spec_row());
        r
    }

    fn from_row(id: i32, row: &Vec<Value>) -> (r: Option<Self>) {
        if row.len() != 4 {
            return None;
        }
        let file_path = match get_text(row, 0) {
            Some(v) => v,
            None => return None,
        };
        let checksum = match get_checksum(row, 1) {
            Some(v) => v,
            None => return None,
        };
        let pulsar_id = match get_i32(row, 2) {
            Some(v) => v,
            None => return None,
        };
        let observer_id = match get_i32(row, 3) {
            Some(v) => v,
            None => return None,
        };
        let e = RawMeta { id, file_path, checksum, pulsar_id, observer_id };
        assert(e.spec_row() =~= cells(row@));
        Some(e)
    }

    proof fn lemma_shape(&self) {
    }
}

} // verus!
