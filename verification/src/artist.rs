//! The artist entity parser: an event-driven state machine that
//! reconstructs [`Artist`] records from the event stream and batches them
//! through the sink.
//!
//! The machine itself is written twice: once as the spec function
//! [`artist_step`], which says exactly what every event does to the state,
//! the current record and the sink, and once as executable code that is
//! proved to follow it.

use vstd::prelude::*;

use crate::error::{LoadError, LoadErrorV};
use crate::events::{spec_local_name, strs_view, local_name_of, tag_is, EventV, XmlEvent};
use crate::rows::{artist_default, Artist, ArtistV};
use crate::sink::{
    batch_keys, lemma_batch_keys_empty, lemma_batch_keys_push, lemma_first_write_wins,
    lemma_purity, lemma_sink_run_faithful, lemma_sink_run_snoc, DedupRows, SinkOp, SinkState,
    sink_run,
};
use crate::sql::{
    no_writes, recs_view, spec_write_artists, write_artists, writes_view, DbOpt, TableWrite,
};
use crate::text::{spec_int_value, spec_text_value, int_value, text_value};

verus! {

/// The states of the artist machine: at the root of the family, inside one
/// scalar field, or inside one collection (outer state on the collection
/// tag, inner state on one item).
#[derive(Debug, Clone, Copy)]
pub enum ParserState {
    Artist,
    Id,
    Name,
    RealName,
    Profile,
    DataQuality,
    NameVariations,
    NameVariation,
    Urls,
    Url,
    Aliases,
    Alias,
    Members,
    Member,
}

/// The primary key of an artist row.
pub open spec fn artist_key() -> spec_fn(ArtistV) -> i32 {
    |a: ArtistV| a.id
}

/// What one step of the artist machine produces.
pub ghost struct ArtistStep {
    pub state: ParserState,
    pub cur: ArtistV,
    pub op: Option<SinkOp<ArtistV, ()>>,
}

/// One transition of the artist machine: from a state, the current record
/// and one event to the next state, the updated record and at most one
/// sink operation.
pub open spec fn artist_step(state: ParserState, cur: ArtistV, ev: EventV) -> Result<
    ArtistStep,
    LoadErrorV,
> {
    match state {
        ParserState::Artist => match ev {
            EventV::Start { name, attrs } => {
                let local = spec_local_name(name);
                if local == "artist"@ {
                    Ok(ArtistStep { state: ParserState::Artist, cur: artist_default(), op: None })
                } else if local == "id"@ {
                    Ok(ArtistStep { state: ParserState::Id, cur, op: None })
                } else if local == "name"@ {
                    Ok(ArtistStep { state: ParserState::Name, cur, op: None })
                } else if local == "realname"@ {
                    Ok(ArtistStep { state: ParserState::RealName, cur, op: None })
                } else if local == "profile"@ {
                    Ok(ArtistStep { state: ParserState::Profile, cur, op: None })
                } else if local == "data_quality"@ {
                    Ok(ArtistStep { state: ParserState::DataQuality, cur, op: None })
                } else if local == "namevariations"@ {
                    Ok(ArtistStep { state: ParserState::NameVariations, cur, op: None })
                } else if local == "urls"@ {
                    Ok(ArtistStep { state: ParserState::Urls, cur, op: None })
                } else if local == "aliases"@ {
                    Ok(ArtistStep { state: ParserState::Aliases, cur, op: None })
                } else if local == "members"@ {
                    Ok(ArtistStep { state: ParserState::Members, cur, op: None })
                } else {
                    Ok(ArtistStep { state: ParserState::Artist, cur, op: None })
                }
            },
            EventV::End { name } => {
                let local = spec_local_name(name);
                if local == "artist"@ {
                    Ok(ArtistStep {
                        state: ParserState::Artist,
                        cur,
                        op: Some(SinkOp::Parent(cur)),
                    })
                } else if local == "artists"@ {
                    Ok(ArtistStep { state: ParserState::Artist, cur, op: Some(SinkOp::Close) })
                } else {
                    Ok(ArtistStep { state: ParserState::Artist, cur, op: None })
                }
            },
            _ => Ok(ArtistStep { state: ParserState::Artist, cur, op: None }),
        },
        ParserState::Id => match ev {
            EventV::Text { raw } => match spec_int_value(raw, "artist.id"@) {
                Ok(v) => Ok(ArtistStep {
                    state: ParserState::Id,
                    cur: ArtistV { id: v, ..cur },
                    op: None,
                }),
                Err(e) => Err(e),
            },
            EventV::End { name } => if spec_local_name(name) == "id"@ {
                Ok(ArtistStep { state: ParserState::Artist, cur, op: None })
            } else {
                Ok(ArtistStep { state: ParserState::Id, cur, op: None })
            },
            _ => Ok(ArtistStep { state: ParserState::Id, cur, op: None }),
        },
        ParserState::Name => match ev {
            EventV::Text { raw } => match spec_text_value(raw) {
                Ok(s) => Ok(ArtistStep {
                    state: ParserState::Name,
                    cur: ArtistV { name: s, ..cur },
                    op: None,
                }),
                Err(e) => Err(e),
            },
            EventV::End { name } => if spec_local_name(name) == "name"@ {
                Ok(ArtistStep { state: ParserState::Artist, cur, op: None })
            } else {
                Ok(ArtistStep { state: ParserState::Name, cur, op: None })
            },
            _ => Ok(ArtistStep { state: ParserState::Name, cur, op: None }),
        },
        ParserState::RealName => match ev {
            EventV::Text { raw } => match spec_text_value(raw) {
                Ok(s) => Ok(ArtistStep {
                    state: ParserState::RealName,
                    cur: ArtistV { real_name: s, ..cur },
                    op: None,
                }),
                Err(e) => Err(e),
            },
            EventV::End { name } => if spec_local_name(name) == "realname"@ {
                Ok(ArtistStep { state: ParserState::Artist, cur, op: None })
            } else {
                Ok(ArtistStep { state: ParserState::RealName, cur, op: None })
            },
            _ => Ok(ArtistStep { state: ParserState::RealName, cur, op: None }),
        },
        ParserState::Profile => match ev {
            EventV::Text { raw } => match spec_text_value(raw) {
                Ok(s) => Ok(ArtistStep {
                    state: ParserState::Profile,
                    cur: ArtistV { profile: s, ..cur },
                    op: None,
                }),
                Err(e) => Err(e),
            },
            EventV::End { name } => if spec_local_name(name) == "profile"@ {
                Ok(ArtistStep { state: ParserState::Artist, cur, op: None })
            } else {
                Ok(ArtistStep { state: ParserState::Profile, cur, op: None })
            },
            _ => Ok(ArtistStep { state: ParserState::Profile, cur, op: None }),
        },
        ParserState::DataQuality => match ev {
            EventV::Text { raw } => match spec_text_value(raw) {
                Ok(s) => Ok(ArtistStep {
                    state: ParserState::DataQuality,
                    cur: ArtistV { data_quality: s, ..cur },
                    op: None,
                }),
                Err(e) => Err(e),
            },
            EventV::End { name } => if spec_local_name(name) == "data_quality"@ {
                Ok(ArtistStep { state: ParserState::Artist, cur, op: None })
            } else {
                Ok(ArtistStep { state: ParserState::DataQuality, cur, op: None })
            },
            _ => Ok(ArtistStep { state: ParserState::DataQuality, cur, op: None }),
        },
        ParserState::NameVariations => match ev {
            EventV::Start { name, attrs } => if spec_local_name(name) == "name"@ {
                Ok(ArtistStep { state: ParserState::NameVariation, cur, op: None })
            } else {
                Ok(ArtistStep { state: ParserState::NameVariations, cur, op: None })
            },
            EventV::End { name } => if spec_local_name(name) == "namevariations"@ {
                Ok(ArtistStep { state: ParserState::Artist, cur, op: None })
            } else {
                Ok(ArtistStep { state: ParserState::NameVariations, cur, op: None })
            },
            _ => Ok(ArtistStep { state: ParserState::NameVariations, cur, op: None }),
        },
        ParserState::NameVariation => match ev {
            EventV::Text { raw } => match spec_text_value(raw) {
                Ok(s) => Ok(ArtistStep {
                    state: ParserState::NameVariations,
                    cur: ArtistV { name_variations: cur.name_variations.push(s), ..cur },
                    op: None,
                }),
                Err(e) => Err(e),
            },
            _ => Ok(ArtistStep { state: ParserState::NameVariations, cur, op: None }),
        },
        ParserState::Urls => match ev {
            EventV::Start { name, attrs } => if spec_local_name(name) == "url"@ {
                Ok(ArtistStep { state: ParserState::Url, cur, op: None })
            } else {
                Ok(ArtistStep { state: ParserState::Urls, cur, op: None })
            },
            EventV::End { name } => if spec_local_name(name) == "urls"@ {
                Ok(ArtistStep { state: ParserState::Artist, cur, op: None })
            } else {
                Ok(ArtistStep { state: ParserState::Urls, cur, op: None })
            },
            _ => Ok(ArtistStep { state: ParserState::Urls, cur, op: None }),
        },
        ParserState::Url => match ev {
            EventV::Text { raw } => match spec_text_value(raw) {
                Ok(s) => Ok(ArtistStep {
                    state: ParserState::Urls,
                    cur: ArtistV { urls: cur.urls.push(s), ..cur },
                    op: None,
                }),
                Err(e) => Err(e),
            },
            _ => Ok(ArtistStep { state: ParserState::Urls, cur, op: None }),
        },
        ParserState::Aliases => match ev {
            EventV::Start { name, attrs } => if spec_local_name(name) == "alias"@ {
                Ok(ArtistStep { state: ParserState::Alias, cur, op: None })
            } else {
                Ok(ArtistStep { state: ParserState::Aliases, cur, op: None })
            },
            EventV::End { name } => if spec_local_name(name) == "aliases"@ {
                Ok(ArtistStep { state: ParserState::Artist, cur, op: None })
            } else {
                Ok(ArtistStep { state: ParserState::Aliases, cur, op: None })
            },
            _ => Ok(ArtistStep { state: ParserState::Aliases, cur, op: None }),
        },
        ParserState::Alias => match ev {
            EventV::Text { raw } => match spec_text_value(raw) {
                Ok(s) => Ok(ArtistStep {
                    state: ParserState::Aliases,
                    cur: ArtistV { aliases: cur.aliases.push(s), ..cur },
                    op: None,
                }),
                Err(e) => Err(e),
            },
            _ => Ok(ArtistStep { state: ParserState::Aliases, cur, op: None }),
        },
        ParserState::Members => match ev {
            EventV::Start { name, attrs } => if spec_local_name(name) == "name"@ {
                Ok(ArtistStep { state: ParserState::Member, cur, op: None })
            } else {
                Ok(ArtistStep { state: ParserState::Members, cur, op: None })
            },
            EventV::End { name } => if spec_local_name(name) == "members"@ {
                Ok(ArtistStep { state: ParserState::Artist, cur, op: None })
            } else {
                Ok(ArtistStep { state: ParserState::Members, cur, op: None })
            },
            _ => Ok(ArtistStep { state: ParserState::Members, cur, op: None }),
        },
        ParserState::Member => match ev {
            EventV::Text { raw } => match spec_text_value(raw) {
                Ok(s) => Ok(ArtistStep {
                    state: ParserState::Members,
                    cur: ArtistV { members: cur.members.push(s), ..cur },
                    op: None,
                }),
                Err(e) => Err(e),
            },
            _ => Ok(ArtistStep { state: ParserState::Members, cur, op: None }),
        },
    }
}

/// The machine's whole account of an event history: final state, current
/// record and the sink operations emitted along the way.
pub ghost struct ArtistModel {
    pub state: ParserState,
    pub cur: ArtistV,
    pub ops: Seq<SinkOp<ArtistV, ()>>,
}

/// Runs the artist machine over an event history.
pub open spec fn artist_machine(evs: Seq<EventV>) -> Result<ArtistModel, LoadErrorV>
    decreases evs.len(),
{
    if evs.len() == 0 {
        Ok(ArtistModel { state: ParserState::Artist, cur: artist_default(), ops: Seq::empty() })
    } else {
        match artist_machine(evs.drop_last()) {
            Err(e) => Err(e),
            Ok(m) => match artist_step(m.state, m.cur, evs.last()) {
                Err(e) => Err(e),
                Ok(st) => Ok(ArtistModel {
                    state: st.state,
                    cur: st.cur,
                    ops: match st.op {
                        Some(op) => m.ops.push(op),
                        None => m.ops,
                    },
                }),
            },
        }
    }
}

/// Appending one event advances the machine by one step.
pub proof fn lemma_artist_machine_snoc(evs: Seq<EventV>, ev: EventV)
    requires
        artist_machine(evs) is Ok,
    ensures
        ({
            let m = artist_machine(evs)->Ok_0;
            match artist_step(m.state, m.cur, ev) {
                Ok(st) => artist_machine(evs.push(ev)) == Ok::<ArtistModel, LoadErrorV>(
                    ArtistModel {
                        state: st.state,
                        cur: st.cur,
                        ops: match st.op {
                            Some(op) => m.ops.push(op),
                            None => m.ops,
                        },
                    },
                ),
                Err(e) => artist_machine(evs.push(ev)) == Err::<ArtistModel, LoadErrorV>(e),
            }
        }),
{
    assert(evs.push(ev).drop_last() =~= evs);
    assert(evs.push(ev).last() == ev);
}

/// The sink state an event history leaves behind, under threshold `b`.
pub open spec fn artist_sink(evs: Seq<EventV>, b: nat) -> SinkState<ArtistV, ()> {
    sink_run(artist_machine(evs)->Ok_0.ops, artist_key(), b)
}

/// What the executable machine step reports back to the batching layer.
enum StepAct {
    Stay,
    Commit,
    Close,
}

/// The artist entity parser: machine state, current record scratch slot
/// and the accumulating batch.
pub struct ArtistsParser {
    state: ParserState,
    current_artist: Artist,
    artists: DedupRows<Artist>,
    batch_size: usize,
    hist: Ghost<Seq<EventV>>,
}

impl ArtistsParser {
    /// The events processed so far.
    pub closed spec fn history(&self) -> Seq<EventV> {
        self.hist@
    }

    /// The batch threshold the parser was built with.
    pub closed spec fn threshold(&self) -> nat {
        self.batch_size as nat
    }

    /// The accepted rows of the current batch, in first-seen order.
    pub closed spec fn pending_rows(&self) -> Seq<ArtistV> {
        self.artists.rows_view()
    }

    /// The parser follows the machine and the sink model of its history.
    pub closed spec fn wf(&self) -> bool {
        let r = artist_machine(self.hist@);
        &&& r is Ok
        &&& {
            let m = r->Ok_0;
            let s = sink_run(m.ops, artist_key(), self.batch_size as nat);
            &&& self.state == m.state
            &&& self.current_artist@ == m.cur
            &&& self.artists.rows_view() == s.pending
            &&& self.artists.keys() == batch_keys(s.batch, artist_key())
        }
    }

    /// A fresh parser bound to the configured batch size.
    pub fn new(db_opts: &DbOpt) -> (r: Self)
        ensures
            r.wf(),
            r.history() == Seq::<EventV>::empty(),
            r.threshold() == db_opts.batch_size as nat,
    {
        let r = ArtistsParser {
            state: ParserState::Artist,
            current_artist: Artist::new(),
            artists: DedupRows::new(),
            batch_size: db_opts.batch_size,
            hist: Ghost(Seq::empty()),
        };
        proof {
            lemma_batch_keys_empty(artist_key());
        }
        r
    }

    /// Runs one machine transition: updates the state and the current
    /// record, and reports which sink operation the event asks for.
    fn machine_step(&mut self, ev: XmlEvent) -> (r: Result<StepAct, LoadError>)
        ensures
            final(self).batch_size == old(self).batch_size,
            final(self).artists == old(self).artists,
            final(self).hist == old(self).hist,
            ({
                let st = artist_step(old(self).state, old(self).current_artist@, ev@);
                match r {
                    Ok(act) => {
                        &&& st is Ok
                        &&& final(self).state == st->Ok_0.state
                        &&& final(self).current_artist@ == st->Ok_0.cur
                        &&& match act {
                            StepAct::Stay => st->Ok_0.op is None,
                            StepAct::Commit => st->Ok_0.op == Some(
                                SinkOp::<ArtistV, ()>::Parent(st->Ok_0.cur),
                            ),
                            StepAct::Close => st->Ok_0.op == Some(SinkOp::<ArtistV, ()>::Close),
                        }
                    },
                    Err(e) => {
                        &&& st is Err
                        &&& e@ == st->Err_0
                        &&& *final(self) == *old(self)
                    },
                }
            }),
    {
        match self.state {
            ParserState::Artist => match ev {
                XmlEvent::Start(name, _) => {
                    let local = local_name_of(name.as_str());
                    if tag_is(&local, "artist") {
                        self.current_artist = Artist::new();
                    } else if tag_is(&local, "id") {
                        self.state = ParserState::Id;
                    } else if tag_is(&local, "name") {
                        self.state = ParserState::Name;
                    } else if tag_is(&local, "realname") {
                        self.state = ParserState::RealName;
                    } else if tag_is(&local, "profile") {
                        self.state = ParserState::Profile;
                    } else if tag_is(&local, "data_quality") {
                        self.state = ParserState::DataQuality;
                    } else if tag_is(&local, "namevariations") {
                        self.state = ParserState::NameVariations;
                    } else if tag_is(&local, "urls") {
                        self.state = ParserState::Urls;
                    } else if tag_is(&local, "aliases") {
                        self.state = ParserState::Aliases;
                    } else if tag_is(&local, "members") {
                        self.state = ParserState::Members;
                    }
                    Ok(StepAct::Stay)
                },
                XmlEvent::End(name) => {
                    let local = local_name_of(name.as_str());
                    if tag_is(&local, "artist") {
                        Ok(StepAct::Commit)
                    } else if tag_is(&local, "artists") {
                        Ok(StepAct::Close)
                    } else {
                        Ok(StepAct::Stay)
                    }
                },
                _ => Ok(StepAct::Stay),
            },
            ParserState::Id => match ev {
                XmlEvent::Text(raw) => match int_value(raw, "artist.id") {
                    Ok(v) => {
                        self.current_artist.id = v;
                        Ok(StepAct::Stay)
                    },
                    Err(e) => Err(e),
                },
                XmlEvent::End(name) => {
                    let local = local_name_of(name.as_str());
                    if tag_is(&local, "id") {
                        self.state = ParserState::Artist;
                    }
                    Ok(StepAct::Stay)
                },
                _ => Ok(StepAct::Stay),
            },
            ParserState::Name => match ev {
                XmlEvent::Text(raw) => match text_value(raw) {
                    Ok(s) => {
                        self.current_artist.name = s;
                        Ok(StepAct::Stay)
                    },
                    Err(e) => Err(e),
                },
                XmlEvent::End(name) => {
                    let local = local_name_of(name.as_str());
                    if tag_is(&local, "name") {
                        self.state = ParserState::Artist;
                    }
                    Ok(StepAct::Stay)
                },
                _ => Ok(StepAct::Stay),
            },
            ParserState::RealName => match ev {
                XmlEvent::Text(raw) => match text_value(raw) {
                    Ok(s) => {
                        self.current_artist.real_name = s;
                        Ok(StepAct::Stay)
                    },
                    Err(e) => Err(e),
                },
                XmlEvent::End(name) => {
                    let local = local_name_of(name.as_str());
                    if tag_is(&local, "realname") {
                        self.state = ParserState::Artist;
                    }
                    Ok(StepAct::Stay)
                },
                _ => Ok(StepAct::Stay),
            },
            ParserState::Profile => match ev {
                XmlEvent::Text(raw) => match text_value(raw) {
                    Ok(s) => {
                        self.current_artist.profile = s;
                        Ok(StepAct::Stay)
                    },
                    Err(e) => Err(e),
                },
                XmlEvent::End(name) => {
                    let local = local_name_of(name.as_str());
                    if tag_is(&local, "profile") {
                        self.state = ParserState::Artist;
                    }
                    Ok(StepAct::Stay)
                },
                _ => Ok(StepAct::Stay),
            },
            ParserState::DataQuality => match ev {
                XmlEvent::Text(raw) => match text_value(raw) {
                    Ok(s) => {
                        self.current_artist.data_quality = s;
                        Ok(StepAct::Stay)
                    },
                    Err(e) => Err(e),
                },
                XmlEvent::End(name) => {
                    let local = local_name_of(name.as_str());
                    if tag_is(&local, "data_quality") {
                        self.state = ParserState::Artist;
                    }
                    Ok(StepAct::Stay)
                },
                _ => Ok(StepAct::Stay),
            },
            ParserState::NameVariations => match ev {
                XmlEvent::Start(name, _) => {
                    let local = local_name_of(name.as_str());
                    if tag_is(&local, "name") {
                        self.state = ParserState::NameVariation;
                    }
                    Ok(StepAct::Stay)
                },
                XmlEvent::End(name) => {
                    let local = local_name_of(name.as_str());
                    if tag_is(&local, "namevariations") {
                        self.state = ParserState::Artist;
                    }
                    Ok(StepAct::Stay)
                },
                _ => Ok(StepAct::Stay),
            },
            ParserState::NameVariation => match ev {
                XmlEvent::Text(raw) => match text_value(raw) {
                    Ok(s) => {
                        let ghost sv = s@;
                        self.current_artist.name_variations.push(s);
                        self.state = ParserState::NameVariations;
                        proof {
                            assert(strs_view(self.current_artist.name_variations@) =~= strs_view(
                                old(self).current_artist.name_variations@,
                            ).push(sv));
                        }
                        Ok(StepAct::Stay)
                    },
                    Err(e) => Err(e),
                },
                _ => {
                    self.state = ParserState::NameVariations;
                    Ok(StepAct::Stay)
                },
            },
            ParserState::Urls => match ev {
                XmlEvent::Start(name, _) => {
                    let local = local_name_of(name.as_str());
                    if tag_is(&local, "url") {
                        self.state = ParserState::Url;
                    }
                    Ok(StepAct::Stay)
                },
                XmlEvent::End(name) => {
                    let local = local_name_of(name.as_str());
                    if tag_is(&local, "urls") {
                        self.state = ParserState::Artist;
                    }
                    Ok(StepAct::Stay)
                },
                _ => Ok(StepAct::Stay),
            },
            ParserState::Url => match ev {
                XmlEvent::Text(raw) => match text_value(raw) {
                    Ok(s) => {
                        let ghost sv = s@;
                        self.current_artist.urls.push(s);
                        self.state = ParserState::Urls;
                        proof {
                            assert(strs_view(self.current_artist.urls@) =~= strs_view(
                                old(self).current_artist.urls@,
                            ).push(sv));
                        }
                        Ok(StepAct::Stay)
                    },
                    Err(e) => Err(e),
                },
                _ => {
                    self.state = ParserState::Urls;
                    Ok(StepAct::Stay)
                },
            },
            ParserState::Aliases => match ev {
                XmlEvent::Start(name, _) => {
                    let local = local_name_of(name.as_str());
                    if tag_is(&local, "alias") {
                        self.state = ParserState::Alias;
                    }
                    Ok(StepAct::Stay)
                },
                XmlEvent::End(name) => {
                    let local = local_name_of(name.as_str());
                    if tag_is(&local, "aliases") {
                        self.state = ParserState::Artist;
                    }
                    Ok(StepAct::Stay)
                },
                _ => Ok(StepAct::Stay),
            },
            ParserState::Alias => match ev {
                XmlEvent::Text(raw) => match text_value(raw) {
                    Ok(s) => {
                        let ghost sv = s@;
                        self.current_artist.aliases.push(s);
                        self.state = ParserState::Aliases;
                        proof {
                            assert(strs_view(self.current_artist.aliases@) =~= strs_view(
                                old(self).current_artist.aliases@,
                            ).push(sv));
                        }
                        Ok(StepAct::Stay)
                    },
                    Err(e) => Err(e),
                },
                _ => {
                    self.state = ParserState::Aliases;
                    Ok(StepAct::Stay)
                },
            },
            ParserState::Members => match ev {
                XmlEvent::Start(name, _) => {
                    let local = local_name_of(name.as_str());
                    if tag_is(&local, "name") {
                        self.state = ParserState::Member;
                    }
                    Ok(StepAct::Stay)
                },
                XmlEvent::End(name) => {
                    let local = local_name_of(name.as_str());
                    if tag_is(&local, "members") {
                        self.state = ParserState::Artist;
                    }
                    Ok(StepAct::Stay)
                },
                _ => Ok(StepAct::Stay),
            },
            ParserState::Member => match ev {
                XmlEvent::Text(raw) => match text_value(raw) {
                    Ok(s) => {
                        let ghost sv = s@;
                        self.current_artist.members.push(s);
                        self.state = ParserState::Members;
                        proof {
                            assert(strs_view(self.current_artist.members@) =~= strs_view(
                                old(self).current_artist.members@,
                            ).push(sv));
                        }
                        Ok(StepAct::Stay)
                    },
                    Err(e) => Err(e),
                },
                _ => {
                    self.state = ParserState::Members;
                    Ok(StepAct::Stay)
                },
            },
        }
    }

    /// Feeds one event through the machine and the batch sink.  The
    /// returned plan holds whatever this event flushed towards the bulk
    /// writer: nothing for most events, one artist-table write when the
    /// batch crossed the threshold or the family closed.
    pub fn process(&mut self, ev: XmlEvent) -> (r: Result<Vec<TableWrite>, LoadError>)
        requires
            old(self).wf(),
        ensures
            final(self).threshold() == old(self).threshold(),
            ({
                let b = old(self).threshold();
                let m0 = artist_machine(old(self).history())->Ok_0;
                match r {
                    Ok(writes) => {
                        &&& final(self).wf()
                        &&& final(self).history() == old(self).history().push(ev@)
                        &&& artist_machine(final(self).history()) is Ok
                        &&& {
                            let s0 = artist_sink(old(self).history(), b);
                            let s1 = artist_sink(final(self).history(), b);
                            &&& s0.flushed.is_prefix_of(s1.flushed)
                            &&& writes_view(writes@) == spec_write_artists(
                                s1.flushed.skip(s0.flushed.len() as int),
                            )
                        }
                    },
                    Err(e) => {
                        &&& *final(self) == *old(self)
                        &&& artist_step(m0.state, m0.cur, ev@) is Err
                        &&& e@ == artist_step(m0.state, m0.cur, ev@)->Err_0
                    },
                }
            }),
    {
        let ghost evv = ev@;
        let ghost m0 = artist_machine(self.hist@)->Ok_0;
        let ghost b = self.batch_size as nat;
        let ghost s0 = sink_run(m0.ops, artist_key(), b);
        let act = match self.machine_step(ev) {
            Ok(a) => a,
            Err(e) => {
                return Err(e);
            },
        };
        proof {
            lemma_artist_machine_snoc(self.hist@, evv);
        }
        let ghost st = artist_step(m0.state, m0.cur, evv)->Ok_0;
        self.hist = Ghost(self.hist@.push(evv));
        match act {
            StepAct::Stay => {
                proof {
                    assert(s0.flushed.skip(s0.flushed.len() as int) =~= Seq::<ArtistV>::empty());
                }
                Ok(no_writes())
            },
            StepAct::Commit => {
                let k = self.current_artist.id;
                let rec = self.current_artist.clone();
                proof {
                    lemma_sink_run_snoc(m0.ops, SinkOp::Parent(st.cur), artist_key(), b);
                    lemma_batch_keys_push(s0.batch, artist_key(), st.cur);
                    if self.artists.keys().contains(k) {
                        assert(batch_keys(s0.batch, artist_key()).insert(k) =~= batch_keys(
                            s0.batch,
                            artist_key(),
                        ));
                    }
                }
                self.artists.commit(k, rec);
                if self.artists.len() >= self.batch_size {
                    let rows = self.artists.take();
                    let w = write_artists(&rows);
                    proof {
                        let s1 = artist_sink(self.hist@, b);
                        lemma_batch_keys_empty(artist_key());
                        assert(s1.flushed.skip(s0.flushed.len() as int) =~= recs_view(rows@));
                    }
                    Ok(w)
                } else {
                    proof {
                        let s1 = artist_sink(self.hist@, b);
                        assert(s1.flushed.skip(s0.flushed.len() as int) =~= Seq::<
                            ArtistV,
                        >::empty());
                    }
                    Ok(no_writes())
                }
            },
            StepAct::Close => {
                let rows = self.artists.take();
                let w = write_artists(&rows);
                proof {
                    lemma_sink_run_snoc(m0.ops, SinkOp::Close, artist_key(), b);
                    lemma_batch_keys_empty(artist_key());
                    let s1 = artist_sink(self.hist@, b);
                    assert(s1.flushed.skip(s0.flushed.len() as int) =~= recs_view(rows@));
                }
                Ok(w)
            },
        }
    }
}

/// Parser purity: two artist parsers that saw the same events have
/// committed exactly the same records to their sinks, whatever their batch
/// sizes — batching changes when rows move, never which rows exist.
pub proof fn lemma_artists_purity(p1: &ArtistsParser, p2: &ArtistsParser)
    requires
        p1.wf(),
        p2.wf(),
        p1.history() == p2.history(),
    ensures
        artist_sink(p1.history(), p1.threshold()).committed == artist_sink(
            p2.history(),
            p2.threshold(),
        ).committed,
{
    lemma_purity(
        artist_machine(p1.history())->Ok_0.ops,
        artist_key(),
        p1.threshold(),
        p2.threshold(),
    );
}

/// First write wins: when two records of the current batch were committed
/// under one id, the pending rows hold the first of them and no other row
/// with that id — the later duplicate was silently dropped.
pub proof fn lemma_artists_first_write_wins(p: &ArtistsParser, i: int, j: int)
    requires
        p.wf(),
        0 <= i < j < artist_sink(p.history(), p.threshold()).batch.len(),
        artist_sink(p.history(), p.threshold()).batch[j].id == artist_sink(
            p.history(),
            p.threshold(),
        ).batch[i].id,
        forall|m: int|
            0 <= m < i ==> (#[trigger] artist_sink(p.history(), p.threshold()).batch[m]).id
                != artist_sink(p.history(), p.threshold()).batch[i].id,
    ensures
        p.pending_rows().contains(artist_sink(p.history(), p.threshold()).batch[i]),
        forall|q: ArtistV|
            p.pending_rows().contains(q) && q.id == artist_sink(
                p.history(),
                p.threshold(),
            ).batch[i].id ==> q == artist_sink(p.history(), p.threshold()).batch[i],
{
    lemma_sink_run_faithful(artist_machine(p.history())->Ok_0.ops, artist_key(), p.threshold());
    lemma_first_write_wins(
        artist_sink(p.history(), p.threshold()).batch,
        artist_key(),
        i,
        j,
    );
}

/// Round-trip of an empty record: an artist element with no nested field
/// elements commits with every column at its default — empty strings, a
/// zero id, empty arrays.
pub proof fn lemma_artist_empty_record_defaults(
    evs: Seq<EventV>,
    sname: Seq<char>,
    sattrs: Seq<Seq<char>>,
    ename: Seq<char>,
)
    requires
        artist_machine(evs) is Ok,
        artist_machine(evs)->Ok_0.state is Artist,
        spec_local_name(sname) == "artist"@,
        spec_local_name(ename) == "artist"@,
    ensures
        ({
            let evs2 = evs.push(EventV::Start { name: sname, attrs: sattrs }).push(
                EventV::End { name: ename },
            );
            &&& artist_machine(evs2) is Ok
            &&& artist_machine(evs2)->Ok_0.ops == artist_machine(evs)->Ok_0.ops.push(
                SinkOp::Parent(artist_default()),
            )
        }),
{
    let ev1 = EventV::Start { name: sname, attrs: sattrs };
    let ev2 = EventV::End { name: ename };
    lemma_artist_machine_snoc(evs, ev1);
    lemma_artist_machine_snoc(evs.push(ev1), ev2);
}

/// Batching faithfulness: every artist row the sink accepted has either
/// been handed to the bulk writer or is still pending — flushing loses and
/// invents nothing.
pub proof fn lemma_artists_batching_faithful(p: &ArtistsParser)
    requires
        p.wf(),
    ensures
        artist_sink(p.history(), p.threshold()).accepted == artist_sink(
            p.history(),
            p.threshold(),
        ).flushed + p.pending_rows(),
{
    lemma_sink_run_faithful(artist_machine(p.history())->Ok_0.ops, artist_key(), p.threshold());
}

} // verus!
