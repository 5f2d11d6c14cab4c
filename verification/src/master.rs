//! The master entity parser: reconstructs [`Master`] records and their
//! credited [`MasterArtist`] child rows from the event stream.
//!
//! The machine is written once as the spec function [`master_step`] and
//! once as executable code proved to follow it.  A master's id arrives as
//! the first positional attribute of its opening tag; the nested `artists`
//! element runs a sub-machine that fills one child row per `artist`.

use vstd::prelude::*;

use crate::error::{LoadError, LoadErrorV};
use crate::events::{spec_local_name, strs_view, local_name_of, tag_is, EventV, XmlEvent};
use crate::rows::{
    master_artist_default, master_default, Master, MasterArtist, MasterArtistV, MasterV,
};
use crate::sink::{
    batch_keys, has_key, lemma_batch_keys_empty, lemma_batch_keys_push,
    lemma_child_parent_locality, lemma_first_write_wins, lemma_purity, lemma_sink_run_faithful,
    lemma_sink_run_snoc, scoped, DedupRows, SinkOp, SinkState, sink_run,
};
use crate::sql::{
    no_writes, recs_view, spec_write_masters, write_masters, writes_view, DbOpt, TableWrite,
};
use crate::text::{spec_int_value, spec_text_value, int_value, text_value};

verus! {

/// The states of the master machine: the family root, the scalar and
/// collection fields of a master, and the nested artist-credit states.
#[derive(Debug, Clone, Copy)]
pub enum ParserReadState {
    Master,
    MainRelease,
    Year,
    Title,
    DataQuality,
    Genres,
    Genre,
    Styles,
    Style,
    Artists,
    ArtistId,
    ArtistName,
    ArtistAnv,
    ArtistRole,
}

/// The primary key of a master row.
pub open spec fn master_key() -> spec_fn(MasterV) -> i32 {
    |m: MasterV| m.id
}

/// What one step of the master machine produces.
pub ghost struct MasterStep {
    pub state: ParserReadState,
    pub cur: MasterV,
    pub kid: MasterArtistV,
    pub op: Option<SinkOp<MasterV, MasterArtistV>>,
}

/// One transition of the master machine.
pub open spec fn master_step(
    state: ParserReadState,
    cur: MasterV,
    kid: MasterArtistV,
    ev: EventV,
) -> Result<MasterStep, LoadErrorV> {
    match state {
        ParserReadState::Master => match ev {
            EventV::Start { name, attrs } => {
                let local = spec_local_name(name);
                if local == "master"@ {
                    if attrs.len() < 1 {
                        Err(LoadErrorV::Attr { index: 0 })
                    } else {
                        match spec_int_value(attrs[0], "master.id"@) {
                            Ok(v) => Ok(MasterStep {
                                state: ParserReadState::Master,
                                cur: MasterV { id: v, ..master_default() },
                                kid,
                                op: None,
                            }),
                            Err(e) => Err(e),
                        }
                    }
                } else if local == "main_release"@ {
                    Ok(MasterStep { state: ParserReadState::MainRelease, cur, kid, op: None })
                } else if local == "year"@ {
                    Ok(MasterStep { state: ParserReadState::Year, cur, kid, op: None })
                } else if local == "title"@ {
                    Ok(MasterStep { state: ParserReadState::Title, cur, kid, op: None })
                } else if local == "artists"@ {
                    Ok(MasterStep { state: ParserReadState::Artists, cur, kid, op: None })
                } else if local == "data_quality"@ {
                    Ok(MasterStep { state: ParserReadState::DataQuality, cur, kid, op: None })
                } else if local == "genres"@ {
                    Ok(MasterStep { state: ParserReadState::Genres, cur, kid, op: None })
                } else if local == "styles"@ {
                    Ok(MasterStep { state: ParserReadState::Styles, cur, kid, op: None })
                } else {
                    Ok(MasterStep { state: ParserReadState::Master, cur, kid, op: None })
                }
            },
            EventV::End { name } => {
                let local = spec_local_name(name);
                if local == "master"@ {
                    Ok(MasterStep {
                        state: ParserReadState::Master,
                        cur,
                        kid,
                        op: Some(SinkOp::Parent(cur)),
                    })
                } else if local == "masters"@ {
                    Ok(MasterStep {
                        state: ParserReadState::Master,
                        cur,
                        kid,
                        op: Some(SinkOp::Close),
                    })
                } else {
                    Ok(MasterStep { state: ParserReadState::Master, cur, kid, op: None })
                }
            },
            _ => Ok(MasterStep { state: ParserReadState::Master, cur, kid, op: None }),
        },
        ParserReadState::MainRelease => match ev {
            EventV::Text { raw } => match spec_int_value(raw, "master.main_release"@) {
                Ok(v) => Ok(MasterStep {
                    state: ParserReadState::MainRelease,
                    cur: MasterV { release_id: v, ..cur },
                    kid,
                    op: None,
                }),
                Err(e) => Err(e),
            },
            EventV::End { name } => if spec_local_name(name) == "main_release"@ {
                Ok(MasterStep { state: ParserReadState::Master, cur, kid, op: None })
            } else {
                Ok(MasterStep { state: ParserReadState::MainRelease, cur, kid, op: None })
            },
            _ => Ok(MasterStep { state: ParserReadState::MainRelease, cur, kid, op: None }),
        },
        ParserReadState::Year => match ev {
            EventV::Text { raw } => match spec_int_value(raw, "master.year"@) {
                Ok(v) => Ok(MasterStep {
                    state: ParserReadState::Year,
                    cur: MasterV { year: v, ..cur },
                    kid,
                    op: None,
                }),
                Err(e) => Err(e),
            },
            EventV::End { name } => if spec_local_name(name) == "year"@ {
                Ok(MasterStep { state: ParserReadState::Master, cur, kid, op: None })
            } else {
                Ok(MasterStep { state: ParserReadState::Year, cur, kid, op: None })
            },
            _ => Ok(MasterStep { state: ParserReadState::Year, cur, kid, op: None }),
        },
        ParserReadState::Title => match ev {
            EventV::Text { raw } => match spec_text_value(raw) {
                Ok(s) => Ok(MasterStep {
                    state: ParserReadState::Title,
                    cur: MasterV { title: s, ..cur },
                    kid,
                    op: None,
                }),
                Err(e) => Err(e),
            },
            EventV::End { name } => if spec_local_name(name) == "title"@ {
                Ok(MasterStep { state: ParserReadState::Master, cur, kid, op: None })
            } else {
                Ok(MasterStep { state: ParserReadState::Title, cur, kid, op: None })
            },
            _ => Ok(MasterStep { state: ParserReadState::Title, cur, kid, op: None }),
        },
        ParserReadState::DataQuality => match ev {
            EventV::Text { raw } => match spec_text_value(raw) {
                Ok(s) => Ok(MasterStep {
                    state: ParserReadState::DataQuality,
                    cur: MasterV { data_quality: s, ..cur },
                    kid,
                    op: None,
                }),
                Err(e) => Err(e),
            },
            EventV::End { name } => if spec_local_name(name) == "data_quality"@ {
                Ok(MasterStep { state: ParserReadState::Master, cur, kid, op: None })
            } else {
                Ok(MasterStep { state: ParserReadState::DataQuality, cur, kid, op: None })
            },
            _ => Ok(MasterStep { state: ParserReadState::DataQuality, cur, kid, op: None }),
        },
        ParserReadState::Genres => match ev {
            EventV::Start { name, attrs } => if spec_local_name(name) == "genre"@ {
                Ok(MasterStep { state: ParserReadState::Genre, cur, kid, op: None })
            } else {
                Ok(MasterStep { state: ParserReadState::Genres, cur, kid, op: None })
            },
            EventV::End { name } => if spec_local_name(name) == "genres"@ {
                Ok(MasterStep { state: ParserReadState::Master, cur, kid, op: None })
            } else {
                Ok(MasterStep { state: ParserReadState::Genres, cur, kid, op: None })
            },
            _ => Ok(MasterStep { state: ParserReadState::Genres, cur, kid, op: None }),
        },
        ParserReadState::Genre => match ev {
            EventV::Text { raw } => match spec_text_value(raw) {
                Ok(s) => Ok(MasterStep {
                    state: ParserReadState::Genres,
                    cur: MasterV { genres: cur.genres.push(s), ..cur },
                    kid,
                    op: None,
                }),
                Err(e) => Err(e),
            },
            _ => Ok(MasterStep { state: ParserReadState::Genres, cur, kid, op: None }),
        },
        ParserReadState::Styles => match ev {
            EventV::Start { name, attrs } => if spec_local_name(name) == "style"@ {
                Ok(MasterStep { state: ParserReadState::Style, cur, kid, op: None })
            } else {
                Ok(MasterStep { state: ParserReadState::Styles, cur, kid, op: None })
            },
            EventV::End { name } => if spec_local_name(name) == "styles"@ {
                Ok(MasterStep { state: ParserReadState::Master, cur, kid, op: None })
            } else {
                Ok(MasterStep { state: ParserReadState::Styles, cur, kid, op: None })
            },
            _ => Ok(MasterStep { state: ParserReadState::Styles, cur, kid, op: None }),
        },
        ParserReadState::Style => match ev {
            EventV::Text { raw } => match spec_text_value(raw) {
                Ok(s) => Ok(MasterStep {
                    state: ParserReadState::Styles,
                    cur: MasterV { styles: cur.styles.push(s), ..cur },
                    kid,
                    op: None,
                }),
                Err(e) => Err(e),
            },
            _ => Ok(MasterStep { state: ParserReadState::Styles, cur, kid, op: None }),
        },
        ParserReadState::Artists => match ev {
            EventV::Start { name, attrs } => {
                let local = spec_local_name(name);
                if local == "artist"@ {
                    Ok(MasterStep {
                        state: ParserReadState::Artists,
                        cur,
                        kid: MasterArtistV { master_id: cur.id, ..master_artist_default() },
                        op: None,
                    })
                } else if local == "id"@ {
                    Ok(MasterStep { state: ParserReadState::ArtistId, cur, kid, op: None })
                } else if local == "name"@ {
                    Ok(MasterStep { state: ParserReadState::ArtistName, cur, kid, op: None })
                } else if local == "anv"@ {
                    Ok(MasterStep { state: ParserReadState::ArtistAnv, cur, kid, op: None })
                } else if local == "role"@ {
                    Ok(MasterStep { state: ParserReadState::ArtistRole, cur, kid, op: None })
                } else {
                    Ok(MasterStep { state: ParserReadState::Artists, cur, kid, op: None })
                }
            },
            EventV::End { name } => {
                let local = spec_local_name(name);
                if local == "artist"@ {
                    Ok(MasterStep {
                        state: ParserReadState::Artists,
                        cur,
                        kid,
                        op: Some(SinkOp::Child(kid)),
                    })
                } else if local == "artists"@ {
                    Ok(MasterStep { state: ParserReadState::Master, cur, kid, op: None })
                } else {
                    Ok(MasterStep { state: ParserReadState::Artists, cur, kid, op: None })
                }
            },
            _ => Ok(MasterStep { state: ParserReadState::Artists, cur, kid, op: None }),
        },
        ParserReadState::ArtistId => match ev {
            EventV::Text { raw } => match spec_int_value(raw, "master.artist.id"@) {
                Ok(v) => Ok(MasterStep {
                    state: ParserReadState::Artists,
                    cur,
                    kid: MasterArtistV { id: v, ..kid },
                    op: None,
                }),
                Err(e) => Err(e),
            },
            EventV::End { name } => if spec_local_name(name) == "id"@ {
                Ok(MasterStep { state: ParserReadState::Artists, cur, kid, op: None })
            } else {
                Ok(MasterStep { state: ParserReadState::ArtistId, cur, kid, op: None })
            },
            _ => Ok(MasterStep { state: ParserReadState::ArtistId, cur, kid, op: None }),
        },
        ParserReadState::ArtistName => match ev {
            EventV::Text { raw } => match spec_text_value(raw) {
                Ok(s) => Ok(MasterStep {
                    state: ParserReadState::Artists,
                    cur,
                    kid: MasterArtistV { name: s, ..kid },
                    op: None,
                }),
                Err(e) => Err(e),
            },
            EventV::End { name } => if spec_local_name(name) == "name"@ {
                Ok(MasterStep { state: ParserReadState::Artists, cur, kid, op: None })
            } else {
                Ok(MasterStep { state: ParserReadState::ArtistName, cur, kid, op: None })
            },
            _ => Ok(MasterStep { state: ParserReadState::ArtistName, cur, kid, op: None }),
        },
        ParserReadState::ArtistAnv => match ev {
            EventV::Text { raw } => match spec_text_value(raw) {
                Ok(s) => Ok(MasterStep {
                    state: ParserReadState::Artists,
                    cur,
                    kid: MasterArtistV { anv: s, ..kid },
                    op: None,
                }),
                Err(e) => Err(e),
            },
            EventV::End { name } => if spec_local_name(name) == "anv"@ {
                Ok(MasterStep { state: ParserReadState::Artists, cur, kid, op: None })
            } else {
                Ok(MasterStep { state: ParserReadState::ArtistAnv, cur, kid, op: None })
            },
            _ => Ok(MasterStep { state: ParserReadState::ArtistAnv, cur, kid, op: None }),
        },
        ParserReadState::ArtistRole => match ev {
            EventV::Text { raw } => match spec_text_value(raw) {
                Ok(s) => Ok(MasterStep {
                    state: ParserReadState::Artists,
                    cur,
                    kid: MasterArtistV { role: s, ..kid },
                    op: None,
                }),
                Err(e) => Err(e),
            },
            EventV::End { name } => if spec_local_name(name) == "role"@ {
                Ok(MasterStep { state: ParserReadState::Artists, cur, kid, op: None })
            } else {
                Ok(MasterStep { state: ParserReadState::ArtistRole, cur, kid, op: None })
            },
            _ => Ok(MasterStep { state: ParserReadState::ArtistRole, cur, kid, op: None }),
        },
    }
}

/// The machine's whole account of an event history.
pub ghost struct MasterModel {
    pub state: ParserReadState,
    pub cur: MasterV,
    pub kid: MasterArtistV,
    pub ops: Seq<SinkOp<MasterV, MasterArtistV>>,
}

/// Runs the master machine over an event history.
pub open spec fn master_machine(evs: Seq<EventV>) -> Result<MasterModel, LoadErrorV>
    decreases evs.len(),
{
    if evs.len() == 0 {
        Ok(MasterModel {
            state: ParserReadState::Master,
            cur: master_default(),
            kid: master_artist_default(),
            ops: Seq::empty(),
        })
    } else {
        match master_machine(evs.drop_last()) {
            Err(e) => Err(e),
            Ok(m) => match master_step(m.state, m.cur, m.kid, evs.last()) {
                Err(e) => Err(e),
                Ok(st) => Ok(MasterModel {
                    state: st.state,
                    cur: st.cur,
                    kid: st.kid,
                    ops: match st.op {
                        Some(op) => m.ops.push(op),
                        None => m.ops,
                    },
                }),
            },
        }
    }
}

/// Appending one event advances the machine by one step.
pub proof fn lemma_master_machine_snoc(evs: Seq<EventV>, ev: EventV)
    requires
        master_machine(evs) is Ok,
    ensures
        ({
            let m = master_machine(evs)->Ok_0;
            match master_step(m.state, m.cur, m.kid, ev) {
                Ok(st) => master_machine(evs.push(ev)) == Ok::<MasterModel, LoadErrorV>(
                    MasterModel {
                        state: st.state,
                        cur: st.cur,
                        kid: st.kid,
                        ops: match st.op {
                            Some(op) => m.ops.push(op),
                            None => m.ops,
                        },
                    },
                ),
                Err(e) => master_machine(evs.push(ev)) == Err::<MasterModel, LoadErrorV>(e),
            }
        }),
{
    assert(evs.push(ev).drop_last() =~= evs);
    assert(evs.push(ev).last() == ev);
}

/// The sink state an event history leaves behind, under threshold `b`.
pub open spec fn master_sink(evs: Seq<EventV>, b: nat) -> SinkState<MasterV, MasterArtistV> {
    sink_run(master_machine(evs)->Ok_0.ops, master_key(), b)
}

/// What the executable machine step reports back to the batching layer.
enum StepAct {
    Stay,
    Commit,
    CommitChild,
    Close,
}

/// The master entity parser: machine state, the master and artist-credit
/// scratch slots, and the accumulating batches of both tables.
pub struct MastersParser {
    state: ParserReadState,
    current_master: Master,
    current_artist: MasterArtist,
    masters: DedupRows<Master>,
    master_artists: Vec<MasterArtist>,
    batch_size: usize,
    hist: Ghost<Seq<EventV>>,
}

impl MastersParser {
    /// The events processed so far.
    pub closed spec fn history(&self) -> Seq<EventV> {
        self.hist@
    }

    /// The batch threshold the parser was built with.
    pub closed spec fn threshold(&self) -> nat {
        self.batch_size as nat
    }

    /// The accepted master rows of the current batch, in first-seen order.
    pub closed spec fn pending_rows(&self) -> Seq<MasterV> {
        self.masters.rows_view()
    }

    /// The artist-credit rows of the current batch, in arrival order.
    pub closed spec fn pending_kids(&self) -> Seq<MasterArtistV> {
        recs_view(self.master_artists@)
    }

    /// The parser follows the machine and the sink model of its history.
    pub closed spec fn wf(&self) -> bool {
        let r = master_machine(self.hist@);
        &&& r is Ok
        &&& {
            let m = r->Ok_0;
            let s = sink_run(m.ops, master_key(), self.batch_size as nat);
            &&& self.state == m.state
            &&& self.current_master@ == m.cur
            &&& self.current_artist@ == m.kid
            &&& self.masters.rows_view() == s.pending
            &&& self.masters.keys() == batch_keys(s.batch, master_key())
            &&& recs_view(self.master_artists@) == s.kids_pending
        }
    }

    /// A fresh parser bound to the configured batch size.
    pub fn new(db_opts: &DbOpt) -> (r: Self)
        ensures
            r.wf(),
            r.history() == Seq::<EventV>::empty(),
            r.threshold() == db_opts.batch_size as nat,
    {
        let r = MastersParser {
            state: ParserReadState::Master,
            current_master: Master::new(),
            current_artist: MasterArtist::new(),
            masters: DedupRows::new(),
            master_artists: Vec::new(),
            batch_size: db_opts.batch_size,
            hist: Ghost(Seq::empty()),
        };
        proof {
            lemma_batch_keys_empty(master_key());
            assert(recs_view(r.master_artists@) =~= Seq::<MasterArtistV>::empty());
        }
        r
    }

    /// Runs one machine transition: updates the state and both scratch
    /// records, and reports which sink operation the event asks for.
    fn machine_step(&mut self, ev: XmlEvent) -> (r: Result<StepAct, LoadError>)
        ensures
            final(self).batch_size == old(self).batch_size,
            final(self).masters == old(self).masters,
            final(self).master_artists == old(self).master_artists,
            final(self).hist == old(self).hist,
            ({
                let st = master_step(
                    old(self).state,
                    old(self).current_master@,
                    old(self).current_artist@,
                    ev@,
                );
                match r {
                    Ok(act) => {
                        &&& st is Ok
                        &&& final(self).state == st->Ok_0.state
                        &&& final(self).current_master@ == st->Ok_0.cur
                        &&& final(self).current_artist@ == st->Ok_0.kid
                        &&& match act {
                            StepAct::Stay => st->Ok_0.op is None,
                            StepAct::Commit => st->Ok_0.op == Some(
                                SinkOp::<MasterV, MasterArtistV>::Parent(st->Ok_0.cur),
                            ),
                            StepAct::CommitChild => st->Ok_0.op == Some(
                                SinkOp::<MasterV, MasterArtistV>::Child(st->Ok_0.kid),
                            ),
                            StepAct::Close => st->Ok_0.op == Some(
                                SinkOp::<MasterV, MasterArtistV>::Close,
                            ),
                        }
                    },
                    Err(e) => {
                        &&& st is Err
                        &&& e@ == st->Err_0
                        &&& *final(self) == *old(self)
                    },
                }
            }),
    {
        match self.state {
            ParserReadState::Master => match ev {
                XmlEvent::Start(name, attrs) => {
                    let local = local_name_of(name.as_str());
                    if tag_is(&local, "master") {
                        if attrs.len() < 1 {
                            return Err(LoadError::Attr { index: 0 });
                        }
                        let raw = attrs[0].clone();
                        match int_value(raw, "master.id") {
                            Ok(v) => {
                                self.current_master = Master::new();
                                self.current_master.id = v;
                                Ok(StepAct::Stay)
                            },
                            Err(e) => Err(e),
                        }
                    } else {
                        if tag_is(&local, "main_release") {
                            self.state = ParserReadState::MainRelease;
                        } else if tag_is(&local, "year") {
                            self.state = ParserReadState::Year;
                        } else if tag_is(&local, "title") {
                            self.state = ParserReadState::Title;
                        } else if tag_is(&local, "artists") {
                            self.state = ParserReadState::Artists;
                        } else if tag_is(&local, "data_quality") {
                            self.state = ParserReadState::DataQuality;
                        } else if tag_is(&local, "genres") {
                            self.state = ParserReadState::Genres;
                        } else if tag_is(&local, "styles") {
                            self.state = ParserReadState::Styles;
                        }
                        Ok(StepAct::Stay)
                    }
                },
                XmlEvent::End(name) => {
                    let local = local_name_of(name.as_str());
                    if tag_is(&local, "master") {
                        Ok(StepAct::Commit)
                    } else if tag_is(&local, "masters") {
                        Ok(StepAct::Close)
                    } else {
                        Ok(StepAct::Stay)
                    }
                },
                _ => Ok(StepAct::Stay),
            },
            ParserReadState::MainRelease => match ev {
                XmlEvent::Text(raw) => match int_value(raw, "master.main_release") {
                    Ok(v) => {
                        self.current_master.release_id = v;
                        Ok(StepAct::Stay)
                    },
                    Err(e) => Err(e),
                },
                XmlEvent::End(name) => {
                    let local = local_name_of(name.as_str());
                    if tag_is(&local, "main_release") {
                        self.state = ParserReadState::Master;
                    }
                    Ok(StepAct::Stay)
                },
                _ => Ok(StepAct::Stay),
            },
            ParserReadState::Year => match ev {
                XmlEvent::Text(raw) => match int_value(raw, "master.year") {
                    Ok(v) => {
                        self.current_master.year = v;
                        Ok(StepAct::Stay)
                    },
                    Err(e) => Err(e),
                },
                XmlEvent::End(name) => {
                    let local = local_name_of(name.as_str());
                    if tag_is(&local, "year") {
                        self.state = ParserReadState::Master;
                    }
                    Ok(StepAct::Stay)
                },
                _ => Ok(StepAct::Stay),
            },
            ParserReadState::Title => match ev {
                XmlEvent::Text(raw) => match text_value(raw) {
                    Ok(s) => {
                        self.current_master.title = s;
                        Ok(StepAct::Stay)
                    },
                    Err(e) => Err(e),
                },
                XmlEvent::End(name) => {
                    let local = local_name_of(name.as_str());
                    if tag_is(&local, "title") {
                        self.state = ParserReadState::Master;
                    }
                    Ok(StepAct::Stay)
                },
                _ => Ok(StepAct::Stay),
            },
            ParserReadState::DataQuality => match ev {
                XmlEvent::Text(raw) => match text_value(raw) {
                    Ok(s) => {
                        self.current_master.data_quality = s;
                        Ok(StepAct::Stay)
                    },
                    Err(e) => Err(e),
                },
                XmlEvent::End(name) => {
                    let local = local_name_of(name.as_str());
                    if tag_is(&local, "data_quality") {
                        self.state = ParserReadState::Master;
                    }
                    Ok(StepAct::Stay)
                },
                _ => Ok(StepAct::Stay),
            },
            ParserReadState::Genres => match ev {
                XmlEvent::Start(name, _) => {
                    let local = local_name_of(name.as_str());
                    if tag_is(&local, "genre") {
                        self.state = ParserReadState::Genre;
                    }
                    Ok(StepAct::Stay)
                },
                XmlEvent::End(name) => {
                    let local = local_name_of(name.as_str());
                    if tag_is(&local, "genres") {
                        self.state = ParserReadState::Master;
                    }
                    Ok(StepAct::Stay)
                },
                _ => Ok(StepAct::Stay),
            },
            ParserReadState::Genre => match ev {
                XmlEvent::Text(raw) => match text_value(raw) {
                    Ok(s) => {
                        let ghost sv = s@;
                        self.current_master.genres.push(s);
                        self.state = ParserReadState::Genres;
                        proof {
                            assert(strs_view(self.current_master.genres@) =~= strs_view(
                                old(self).current_master.genres@,
                            ).push(sv));
                        }
                        Ok(StepAct::Stay)
                    },
                    Err(e) => Err(e),
                },
                _ => {
                    self.state = ParserReadState::Genres;
                    Ok(StepAct::Stay)
                },
            },
            ParserReadState::Styles => match ev {
                XmlEvent::Start(name, _) => {
                    let local = local_name_of(name.as_str());
                    if tag_is(&local, "style") {
                        self.state = ParserReadState::Style;
                    }
                    Ok(StepAct::Stay)
                },
                XmlEvent::End(name) => {
                    let local = local_name_of(name.as_str());
                    if tag_is(&local, "styles") {
                        self.state = ParserReadState::Master;
                    }
                    Ok(StepAct::Stay)
                },
                _ => Ok(StepAct::Stay),
            },
            ParserReadState::Style => match ev {
                XmlEvent::Text(raw) => match text_value(raw) {
                    Ok(s) => {
                        let ghost sv = s@;
                        self.current_master.styles.push(s);
                        self.state = ParserReadState::Styles;
                        proof {
                            assert(strs_view(self.current_master.styles@) =~= strs_view(
                                old(self).current_master.styles@,
                            ).push(sv));
                        }
                        Ok(StepAct::Stay)
                    },
                    Err(e) => Err(e),
                },
                _ => {
                    self.state = ParserReadState::Styles;
                    Ok(StepAct::Stay)
                },
            },
            ParserReadState::Artists => match ev {
                XmlEvent::Start(name, _) => {
                    let local = local_name_of(name.as_str());
                    if tag_is(&local, "artist") {
                        self.current_artist = MasterArtist::new();
                        self.current_artist.master_id = self.current_master.id;
                        Ok(StepAct::Stay)
                    } else {
                        if tag_is(&local, "id") {
                            self.state = ParserReadState::ArtistId;
                        } else if tag_is(&local, "name") {
                            self.state = ParserReadState::ArtistName;
                        } else if tag_is(&local, "anv") {
                            self.state = ParserReadState::ArtistAnv;
                        } else if tag_is(&local, "role") {
                            self.state = ParserReadState::ArtistRole;
                        }
                        Ok(StepAct::Stay)
                    }
                },
                XmlEvent::End(name) => {
                    let local = local_name_of(name.as_str());
                    if tag_is(&local, "artist") {
                        Ok(StepAct::CommitChild)
                    } else {
                        if tag_is(&local, "artists") {
                            self.state = ParserReadState::Master;
                        }
                        Ok(StepAct::Stay)
                    }
                },
                _ => Ok(StepAct::Stay),
            },
            ParserReadState::ArtistId => match ev {
                XmlEvent::Text(raw) => match int_value(raw, "master.artist.id") {
                    Ok(v) => {
                        self.current_artist.id = v;
                        self.state = ParserReadState::Artists;
                        Ok(StepAct::Stay)
                    },
                    Err(e) => Err(e),
                },
                XmlEvent::End(name) => {
                    let local = local_name_of(name.as_str());
                    if tag_is(&local, "id") {
                        self.state = ParserReadState::Artists;
                    }
                    Ok(StepAct::Stay)
                },
                _ => Ok(StepAct::Stay),
            },
            ParserReadState::ArtistName => match ev {
                XmlEvent::Text(raw) => match text_value(raw) {
                    Ok(s) => {
                        self.current_artist.name = s;
                        self.state = ParserReadState::Artists;
                        Ok(StepAct::Stay)
                    },
                    Err(e) => Err(e),
                },
                XmlEvent::End(name) => {
                    let local = local_name_of(name.as_str());
                    if tag_is(&local, "name") {
                        self.state = ParserReadState::Artists;
                    }
                    Ok(StepAct::Stay)
                },
                _ => Ok(StepAct::Stay),
            },
            ParserReadState::ArtistAnv => match ev {
                XmlEvent::Text(raw) => match text_value(raw) {
                    Ok(s) => {
                        self.current_artist.anv = s;
                        self.state = ParserReadState::Artists;
                        Ok(StepAct::Stay)
                    },
                    Err(e) => Err(e),
                },
                XmlEvent::End(name) => {
                    let local = local_name_of(name.as_str());
                    if tag_is(&local, "anv") {
                        self.state = ParserReadState::Artists;
                    }
                    Ok(StepAct::Stay)
                },
                _ => Ok(StepAct::Stay),
            },
            ParserReadState::ArtistRole => match ev {
                XmlEvent::Text(raw) => match text_value(raw) {
                    Ok(s) => {
                        self.current_artist.role = s;
                        self.state = ParserReadState::Artists;
                        Ok(StepAct::Stay)
                    },
                    Err(e) => Err(e),
                },
                XmlEvent::End(name) => {
                    let local = local_name_of(name.as_str());
                    if tag_is(&local, "role") {
                        self.state = ParserReadState::Artists;
                    }
                    Ok(StepAct::Stay)
                },
                _ => Ok(StepAct::Stay),
            },
        }
    }

    /// Feeds one event through the machine and the batch sink; the
    /// returned plan holds whatever this event flushed, the master table
    /// before the artist-credit table.
    pub fn process(&mut self, ev: XmlEvent) -> (r: Result<Vec<TableWrite>, LoadError>)
        requires
            old(self).wf(),
        ensures
            final(self).threshold() == old(self).threshold(),
            ({
                let b = old(self).threshold();
                let m0 = master_machine(old(self).history())->Ok_0;
                match r {
                    Ok(writes) => {
                        &&& final(self).wf()
                        &&& final(self).history() == old(self).history().push(ev@)
                        &&& master_machine(final(self).history()) is Ok
                        &&& {
                            let s0 = master_sink(old(self).history(), b);
                            let s1 = master_sink(final(self).history(), b);
                            &&& s0.flushed.is_prefix_of(s1.flushed)
                            &&& s0.kids_flushed.is_prefix_of(s1.kids_flushed)
                            &&& writes_view(writes@) == spec_write_masters(
                                s1.flushed.skip(s0.flushed.len() as int),
                                s1.kids_flushed.skip(s0.kids_flushed.len() as int),
                            )
                        }
                    },
                    Err(e) => {
                        &&& *final(self) == *old(self)
                        &&& master_step(m0.state, m0.cur, m0.kid, ev@) is Err
                        &&& e@ == master_step(m0.state, m0.cur, m0.kid, ev@)->Err_0
                    },
                }
            }),
    {
        let ghost evv = ev@;
        let ghost m0 = master_machine(self.hist@)->Ok_0;
        let ghost b = self.batch_size as nat;
        let ghost s0 = sink_run(m0.ops, master_key(), b);
        let act = match self.machine_step(ev) {
            Ok(a) => a,
            Err(e) => {
                return Err(e);
            },
        };
        proof {
            lemma_master_machine_snoc(self.hist@, evv);
        }
        let ghost st = master_step(m0.state, m0.cur, m0.kid, evv)->Ok_0;
        self.hist = Ghost(self.hist@.push(evv));
        match act {
            StepAct::Stay => {
                proof {
                    assert(s0.flushed.skip(s0.flushed.len() as int) =~= Seq::<MasterV>::empty());
                    assert(s0.kids_flushed.skip(s0.kids_flushed.len() as int) =~= Seq::<
                        MasterArtistV,
                    >::empty());
                    assert(spec_write_masters(
                        Seq::<MasterV>::empty(),
                        Seq::<MasterArtistV>::empty(),
                    ) =~= Seq::<crate::sql::TableWriteV>::empty());
                }
                Ok(no_writes())
            },
            StepAct::CommitChild => {
                let kid = self.current_artist.clone();
                proof {
                    lemma_sink_run_snoc(m0.ops, SinkOp::Child(st.kid), master_key(), b);
                }
                self.master_artists.push(kid);
                proof {
                    assert(recs_view(self.master_artists@) =~= recs_view(
                        old(self).master_artists@,
                    ).push(st.kid));
                    let s1 = master_sink(self.hist@, b);
                    assert(s0.flushed.skip(s0.flushed.len() as int) =~= Seq::<MasterV>::empty());
                    assert(s0.kids_flushed.skip(s0.kids_flushed.len() as int) =~= Seq::<
                        MasterArtistV,
                    >::empty());
                    assert(spec_write_masters(
                        Seq::<MasterV>::empty(),
                        Seq::<MasterArtistV>::empty(),
                    ) =~= Seq::<crate::sql::TableWriteV>::empty());
                }
                Ok(no_writes())
            },
            StepAct::Commit => {
                let k = self.current_master.id;
                let rec = self.current_master.clone();
                proof {
                    lemma_sink_run_snoc(m0.ops, SinkOp::Parent(st.cur), master_key(), b);
                    lemma_batch_keys_push(s0.batch, master_key(), st.cur);
                    if self.masters.keys().contains(k) {
                        assert(batch_keys(s0.batch, master_key()).insert(k) =~= batch_keys(
                            s0.batch,
                            master_key(),
                        ));
                    }
                }
                self.masters.commit(k, rec);
                if self.masters.len() >= self.batch_size {
                    let rows = self.masters.take();
                    let mut kids: Vec<MasterArtist> = Vec::new();
                    core::mem::swap(&mut kids, &mut self.master_artists);
                    let w = write_masters(&rows, &kids);
                    proof {
                        let s1 = master_sink(self.hist@, b);
                        lemma_batch_keys_empty(master_key());
                        assert(recs_view(self.master_artists@) =~= Seq::<MasterArtistV>::empty());
                        assert(s1.flushed.skip(s0.flushed.len() as int) =~= recs_view(rows@));
                        assert(s1.kids_flushed.skip(s0.kids_flushed.len() as int) =~= recs_view(
                            kids@,
                        ));
                    }
                    Ok(w)
                } else {
                    proof {
                        let s1 = master_sink(self.hist@, b);
                        assert(s1.flushed.skip(s0.flushed.len() as int) =~= Seq::<
                            MasterV,
                        >::empty());
                        assert(s1.kids_flushed.skip(s0.kids_flushed.len() as int) =~= Seq::<
                            MasterArtistV,
                        >::empty());
                        assert(spec_write_masters(
                            Seq::<MasterV>::empty(),
                            Seq::<MasterArtistV>::empty(),
                        ) =~= Seq::<crate::sql::TableWriteV>::empty());
                    }
                    Ok(no_writes())
                }
            },
            StepAct::Close => {
                let rows = self.masters.take();
                let mut kids: Vec<MasterArtist> = Vec::new();
                core::mem::swap(&mut kids, &mut self.master_artists);
                let w = write_masters(&rows, &kids);
                proof {
                    lemma_sink_run_snoc(m0.ops, SinkOp::Close, master_key(), b);
                    lemma_batch_keys_empty(master_key());
                    let s1 = master_sink(self.hist@, b);
                    assert(recs_view(self.master_artists@) =~= Seq::<MasterArtistV>::empty());
                    assert(s1.flushed.skip(s0.flushed.len() as int) =~= recs_view(rows@));
                    assert(s1.kids_flushed.skip(s0.kids_flushed.len() as int) =~= recs_view(
                        kids@,
                    ));
                }
                Ok(w)
            },
        }
    }
}

/// Parser purity: two master parsers that saw the same events have
/// committed exactly the same master records and artist-credit rows,
/// whatever their batch sizes.
pub proof fn lemma_masters_purity(p1: &MastersParser, p2: &MastersParser)
    requires
        p1.wf(),
        p2.wf(),
        p1.history() == p2.history(),
    ensures
        master_sink(p1.history(), p1.threshold()).committed == master_sink(
            p2.history(),
            p2.threshold(),
        ).committed,
        master_sink(p1.history(), p1.threshold()).kids_committed == master_sink(
            p2.history(),
            p2.threshold(),
        ).kids_committed,
{
    lemma_purity(
        master_machine(p1.history())->Ok_0.ops,
        master_key(),
        p1.threshold(),
        p2.threshold(),
    );
}

/// First write wins: when two records of the current batch were committed
/// under one id, the pending rows hold the first of them and no other row
/// with that id — the later duplicate was silently dropped.
pub proof fn lemma_masters_first_write_wins(p: &MastersParser, i: int, j: int)
    requires
        p.wf(),
        0 <= i < j < master_sink(p.history(), p.threshold()).batch.len(),
        master_sink(p.history(), p.threshold()).batch[j].id == master_sink(
            p.history(),
            p.threshold(),
        ).batch[i].id,
        forall|m: int|
            0 <= m < i ==> (#[trigger] master_sink(p.history(), p.threshold()).batch[m]).id
                != master_sink(p.history(), p.threshold()).batch[i].id,
    ensures
        p.pending_rows().contains(master_sink(p.history(), p.threshold()).batch[i]),
        forall|q: MasterV|
            p.pending_rows().contains(q) && q.id == master_sink(
                p.history(),
                p.threshold(),
            ).batch[i].id ==> q == master_sink(p.history(), p.threshold()).batch[i],
{
    lemma_sink_run_faithful(master_machine(p.history())->Ok_0.ops, master_key(), p.threshold());
    lemma_first_write_wins(
        master_sink(p.history(), p.threshold()).batch,
        master_key(),
        i,
        j,
    );
}

/// The parent key an artist-credit row carries: the master it belongs to.
pub open spec fn master_child_key() -> spec_fn(MasterArtistV) -> i32 {
    |a: MasterArtistV| a.master_id
}

/// Child–parent locality: when the parser's commits are record-scoped —
/// every artist credit committed between its master's opening tag and the
/// parent commit at the closing tag, as a well-nested dump produces them
/// — every artist-credit row handed to the bulk writer carries the id of
/// a master committed no later than that child's flush; and each flush
/// writes the master table before the artist-credit table.
pub proof fn lemma_masters_child_parent_locality(p: &MastersParser)
    requires
        p.wf(),
        scoped(master_machine(p.history())->Ok_0.ops, master_key(), master_child_key()),
    ensures
        ({
            let s = master_sink(p.history(), p.threshold());
            forall|idx: int|
                0 <= idx < s.kids_flushed.len() ==> has_key(
                    s.committed,
                    master_key(),
                    master_child_key()(#[trigger] s.kids_flushed[idx]),
                )
        }),
{
    lemma_child_parent_locality(
        master_machine(p.history())->Ok_0.ops,
        master_key(),
        master_child_key(),
        p.threshold(),
    );
}

/// Round-trip of an empty record: a master element with no nested field
/// elements commits with its id read from the attribute and every other
/// column at its default — empty strings, zero integers, empty arrays.
pub proof fn lemma_master_empty_record_defaults(
    evs: Seq<EventV>,
    sname: Seq<char>,
    sattrs: Seq<Seq<char>>,
    ename: Seq<char>,
)
    requires
        master_machine(evs) is Ok,
        master_machine(evs)->Ok_0.state is Master,
        spec_local_name(sname) == "master"@,
        spec_local_name(ename) == "master"@,
        sattrs.len() >= 1,
        spec_int_value(sattrs[0], "master.id"@) is Ok,
    ensures
        ({
            let evs2 = evs.push(EventV::Start { name: sname, attrs: sattrs }).push(
                EventV::End { name: ename },
            );
            &&& master_machine(evs2) is Ok
            &&& master_machine(evs2)->Ok_0.ops == master_machine(evs)->Ok_0.ops.push(
                SinkOp::Parent(
                    MasterV {
                        id: spec_int_value(sattrs[0], "master.id"@)->Ok_0,
                        ..master_default()
                    },
                ),
            )
        }),
{
    let ev1 = EventV::Start { name: sname, attrs: sattrs };
    let ev2 = EventV::End { name: ename };
    lemma_master_machine_snoc(evs, ev1);
    lemma_master_machine_snoc(evs.push(ev1), ev2);
}

/// Batching faithfulness: every master row the sink accepted, and every
/// artist-credit row committed, has either been handed to the bulk writer
/// or is still pending.
pub proof fn lemma_masters_batching_faithful(p: &MastersParser)
    requires
        p.wf(),
    ensures
        master_sink(p.history(), p.threshold()).accepted == master_sink(
            p.history(),
            p.threshold(),
        ).flushed + p.pending_rows(),
        master_sink(p.history(), p.threshold()).kids_committed == master_sink(
            p.history(),
            p.threshold(),
        ).kids_flushed + p.pending_kids(),
{
    lemma_sink_run_faithful(master_machine(p.history())->Ok_0.ops, master_key(), p.threshold());
}

} // verus!
