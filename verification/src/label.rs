//! The label entity parser: an event-driven state machine that
//! reconstructs [`Label`] records from the event stream and batches them
//! through the sink.
//!
//! As with every family, the machine is written once as the spec function
//! [`label_step`] and once as executable code proved to follow it.

use vstd::prelude::*;

use crate::error::{LoadError, LoadErrorV};
use crate::events::{spec_local_name, strs_view, local_name_of, tag_is, EventV, XmlEvent};
use crate::rows::{label_default, Label, LabelV};
use crate::sink::{
    batch_keys, lemma_batch_keys_empty, lemma_batch_keys_push, lemma_first_write_wins,
    lemma_purity, lemma_sink_run_faithful, lemma_sink_run_snoc, DedupRows, SinkOp, SinkState,
    sink_run,
};
use crate::sql::{
    no_writes, recs_view, spec_write_labels, write_labels, writes_view, DbOpt, TableWrite,
};
use crate::text::{spec_int_value, spec_text_value, int_value, text_value};

verus! {

/// The states of the label machine.
#[derive(Debug, Clone, Copy)]
pub enum ParserState {
    Label,
    Name,
    Id,
    Contactinfo,
    Profile,
    ParentLabel,
    Sublabels,
    Sublabel,
    Urls,
    Url,
    DataQuality,
}

/// The primary key of a label row.
pub open spec fn label_key() -> spec_fn(LabelV) -> i32 {
    |l: LabelV| l.id
}

/// What one step of the label machine produces.
pub ghost struct LabelStep {
    pub state: ParserState,
    pub cur: LabelV,
    pub op: Option<SinkOp<LabelV, ()>>,
}

/// One transition of the label machine.
pub open spec fn label_step(state: ParserState, cur: LabelV, ev: EventV) -> Result<
    LabelStep,
    LoadErrorV,
> {
    match state {
        ParserState::Label => match ev {
            EventV::Start { name, attrs } => {
                let local = spec_local_name(name);
                if local == "label"@ {
                    Ok(LabelStep { state: ParserState::Label, cur: label_default(), op: None })
                } else if local == "name"@ {
                    Ok(LabelStep { state: ParserState::Name, cur, op: None })
                } else if local == "id"@ {
                    Ok(LabelStep { state: ParserState::Id, cur, op: None })
                } else if local == "contactinfo"@ {
                    Ok(LabelStep { state: ParserState::Contactinfo, cur, op: None })
                } else if local == "profile"@ {
                    Ok(LabelStep { state: ParserState::Profile, cur, op: None })
                } else if local == "parent_label"@ {
                    Ok(LabelStep { state: ParserState::ParentLabel, cur, op: None })
                } else if local == "sublabels"@ {
                    Ok(LabelStep { state: ParserState::Sublabels, cur, op: None })
                } else if local == "urls"@ {
                    Ok(LabelStep { state: ParserState::Urls, cur, op: None })
                } else if local == "data_quality"@ {
                    Ok(LabelStep { state: ParserState::DataQuality, cur, op: None })
                } else {
                    Ok(LabelStep { state: ParserState::Label, cur, op: None })
                }
            },
            EventV::End { name } => {
                let local = spec_local_name(name);
                if local == "label"@ {
                    Ok(LabelStep { state: ParserState::Label, cur, op: Some(SinkOp::Parent(cur)) })
                } else if local == "labels"@ {
                    Ok(LabelStep { state: ParserState::Label, cur, op: Some(SinkOp::Close) })
                } else {
                    Ok(LabelStep { state: ParserState::Label, cur, op: None })
                }
            },
            _ => Ok(LabelStep { state: ParserState::Label, cur, op: None }),
        },
        ParserState::Name => match ev {
            EventV::Text { raw } => match spec_text_value(raw) {
                Ok(s) => Ok(LabelStep {
                    state: ParserState::Name,
                    cur: LabelV { name: s, ..cur },
                    op: None,
                }),
                Err(e) => Err(e),
            },
            EventV::End { name } => if spec_local_name(name) == "name"@ {
                Ok(LabelStep { state: ParserState::Label, cur, op: None })
            } else {
                Ok(LabelStep { state: ParserState::Name, cur, op: None })
            },
            _ => Ok(LabelStep { state: ParserState::Name, cur, op: None }),
        },
        ParserState::Id => match ev {
            EventV::Text { raw } => match spec_int_value(raw, "label.id"@) {
                Ok(v) => Ok(LabelStep {
                    state: ParserState::Id,
                    cur: LabelV { id: v, ..cur },
                    op: None,
                }),
                Err(e) => Err(e),
            },
            EventV::End { name } => if spec_local_name(name) == "id"@ {
                Ok(LabelStep { state: ParserState::Label, cur, op: None })
            } else {
                Ok(LabelStep { state: ParserState::Id, cur, op: None })
            },
            _ => Ok(LabelStep { state: ParserState::Id, cur, op: None }),
        },
        ParserState::Contactinfo => match ev {
            EventV::Text { raw } => match spec_text_value(raw) {
                Ok(s) => Ok(LabelStep {
                    state: ParserState::Contactinfo,
                    cur: LabelV { contactinfo: s, ..cur },
                    op: None,
                }),
                Err(e) => Err(e),
            },
            EventV::End { name } => if spec_local_name(name) == "contactinfo"@ {
                Ok(LabelStep { state: ParserState::Label, cur, op: None })
            } else {
                Ok(LabelStep { state: ParserState::Contactinfo, cur, op: None })
            },
            _ => Ok(LabelStep { state: ParserState::Contactinfo, cur, op: None }),
        },
        ParserState::Profile => match ev {
            EventV::Text { raw } => match spec_text_value(raw) {
                Ok(s) => Ok(LabelStep {
                    state: ParserState::Profile,
                    cur: LabelV { profile: s, ..cur },
                    op: None,
                }),
                Err(e) => Err(e),
            },
            EventV::End { name } => if spec_local_name(name) == "profile"@ {
                Ok(LabelStep { state: ParserState::Label, cur, op: None })
            } else {
                Ok(LabelStep { state: ParserState::Profile, cur, op: None })
            },
            _ => Ok(LabelStep { state: ParserState::Profile, cur, op: None }),
        },
        ParserState::ParentLabel => match ev {
            EventV::Text { raw } => match spec_text_value(raw) {
                Ok(s) => Ok(LabelStep {
                    state: ParserState::ParentLabel,
                    cur: LabelV { parent_label: s, ..cur },
                    op: None,
                }),
                Err(e) => Err(e),
            },
            EventV::End { name } => if spec_local_name(name) == "parent_label"@ {
                Ok(LabelStep { state: ParserState::Label, cur, op: None })
            } else {
                Ok(LabelStep { state: ParserState::ParentLabel, cur, op: None })
            },
            _ => Ok(LabelStep { state: ParserState::ParentLabel, cur, op: None }),
        },
        ParserState::Sublabels => match ev {
            EventV::Start { name, attrs } => if spec_local_name(name) == "label"@ {
                Ok(LabelStep { state: ParserState::Sublabel, cur, op: None })
            } else {
                Ok(LabelStep { state: ParserState::Sublabels, cur, op: None })
            },
            EventV::End { name } => if spec_local_name(name) == "sublabels"@ {
                Ok(LabelStep { state: ParserState::Label, cur, op: None })
            } else {
                Ok(LabelStep { state: ParserState::Sublabels, cur, op: None })
            },
            _ => Ok(LabelStep { state: ParserState::Sublabels, cur, op: None }),
        },
        ParserState::Sublabel => match ev {
            EventV::Text { raw } => match spec_text_value(raw) {
                Ok(s) => Ok(LabelStep {
                    state: ParserState::Sublabels,
                    cur: LabelV { sublabels: cur.sublabels.push(s), ..cur },
                    op: None,
                }),
                Err(e) => Err(e),
            },
            _ => Ok(LabelStep { state: ParserState::Sublabels, cur, op: None }),
        },
        ParserState::Urls => match ev {
            EventV::Start { name, attrs } => if spec_local_name(name) == "url"@ {
                Ok(LabelStep { state: ParserState::Url, cur, op: None })
            } else {
                Ok(LabelStep { state: ParserState::Urls, cur, op: None })
            },
            EventV::End { name } => if spec_local_name(name) == "urls"@ {
                Ok(LabelStep { state: ParserState::Label, cur, op: None })
            } else {
                Ok(LabelStep { state: ParserState::Urls, cur, op: None })
            },
            _ => Ok(LabelStep { state: ParserState::Urls, cur, op: None }),
        },
        ParserState::Url => match ev {
            EventV::Text { raw } => match spec_text_value(raw) {
                Ok(s) => Ok(LabelStep {
                    state: ParserState::Urls,
                    cur: LabelV { urls: cur.urls.push(s), ..cur },
                    op: None,
                }),
                Err(e) => Err(e),
            },
            _ => Ok(LabelStep { state: ParserState::Urls, cur, op: None }),
        },
        ParserState::DataQuality => match ev {
            EventV::Text { raw } => match spec_text_value(raw) {
                Ok(s) => Ok(LabelStep {
                    state: ParserState::DataQuality,
                    cur: LabelV { data_quality: s, ..cur },
                    op: None,
                }),
                Err(e) => Err(e),
            },
            EventV::End { name } => if spec_local_name(name) == "data_quality"@ {
                Ok(LabelStep { state: ParserState::Label, cur, op: None })
            } else {
                Ok(LabelStep { state: ParserState::DataQuality, cur, op: None })
            },
            _ => Ok(LabelStep { state: ParserState::DataQuality, cur, op: None }),
        },
    }
}

/// The machine's whole account of an event history.
pub ghost struct LabelModel {
    pub state: ParserState,
    pub cur: LabelV,
    pub ops: Seq<SinkOp<LabelV, ()>>,
}

/// Runs the label machine over an event history.
pub open spec fn label_machine(evs: Seq<EventV>) -> Result<LabelModel, LoadErrorV>
    decreases evs.len(),
{
    if evs.len() == 0 {
        Ok(LabelModel { state: ParserState::Label, cur: label_default(), ops: Seq::empty() })
    } else {
        match label_machine(evs.drop_last()) {
            Err(e) => Err(e),
            Ok(m) => match label_step(m.state, m.cur, evs.last()) {
                Err(e) => Err(e),
                Ok(st) => Ok(LabelModel {
                    state: st.state,
                    cur: st.cur,
                    ops: match st.op {
                        Some(op) => m.ops.push(op),
                        None => m.ops,
                    },
                }),
            },
        }
    }
}

/// Appending one event advances the machine by one step.
pub proof fn lemma_label_machine_snoc(evs: Seq<EventV>, ev: EventV)
    requires
        label_machine(evs) is Ok,
    ensures
        ({
            let m = label_machine(evs)->Ok_0;
            match label_step(m.state, m.cur, ev) {
                Ok(st) => label_machine(evs.push(ev)) == Ok::<LabelModel, LoadErrorV>(
                    LabelModel {
                        state: st.state,
                        cur: st.cur,
                        ops: match st.op {
                            Some(op) => m.ops.push(op),
                            None => m.ops,
                        },
                    },
                ),
                Err(e) => label_machine(evs.push(ev)) == Err::<LabelModel, LoadErrorV>(e),
            }
        }),
{
    assert(evs.push(ev).drop_last() =~= evs);
    assert(evs.push(ev).last() == ev);
}

/// The sink state an event history leaves behind, under threshold `b`.
pub open spec fn label_sink(evs: Seq<EventV>, b: nat) -> SinkState<LabelV, ()> {
    sink_run(label_machine(evs)->Ok_0.ops, label_key(), b)
}

/// What the executable machine step reports back to the batching layer.
enum StepAct {
    Stay,
    Commit,
    Close,
}

/// The label entity parser.
pub struct LabelsParser {
    state: ParserState,
    current_label: Label,
    labels: DedupRows<Label>,
    batch_size: usize,
    hist: Ghost<Seq<EventV>>,
}

impl LabelsParser {
    /// The events processed so far.
    pub closed spec fn history(&self) -> Seq<EventV> {
        self.hist@
    }

    /// The batch threshold the parser was built with.
    pub closed spec fn threshold(&self) -> nat {
        self.batch_size as nat
    }

    /// The accepted rows of the current batch, in first-seen order.
    pub closed spec fn pending_rows(&self) -> Seq<LabelV> {
        self.labels.rows_view()
    }

    /// The parser follows the machine and the sink model of its history.
    pub closed spec fn wf(&self) -> bool {
        let r = label_machine(self.hist@);
        &&& r is Ok
        &&& {
            let m = r->Ok_0;
            let s = sink_run(m.ops, label_key(), self.batch_size as nat);
            &&& self.state == m.state
            &&& self.current_label@ == m.cur
            &&& self.labels.rows_view() == s.pending
            &&& self.labels.keys() == batch_keys(s.batch, label_key())
        }
    }

    /// A fresh parser bound to the configured batch size.
    pub fn new(db_opts: &DbOpt) -> (r: Self)
        ensures
            r.wf(),
            r.history() == Seq::<EventV>::empty(),
            r.threshold() == db_opts.batch_size as nat,
    {
        let r = LabelsParser {
            state: ParserState::Label,
            current_label: Label::new(),
            labels: DedupRows::new(),
            batch_size: db_opts.batch_size,
            hist: Ghost(Seq::empty()),
        };
        proof {
            lemma_batch_keys_empty(label_key());
        }
        r
    }

    /// Runs one machine transition: updates the state and the current
    /// record, and reports which sink operation the event asks for.
    fn machine_step(&mut self, ev: XmlEvent) -> (r: Result<StepAct, LoadError>)
        ensures
            final(self).batch_size == old(self).batch_size,
            final(self).labels == old(self).labels,
            final(self).hist == old(self).hist,
            ({
                let st = label_step(old(self).state, old(self).current_label@, ev@);
                match r {
                    Ok(act) => {
                        &&& st is Ok
                        &&& final(self).state == st->Ok_0.state
                        &&& final(self).current_label@ == st->Ok_0.cur
                        &&& match act {
                            StepAct::Stay => st->Ok_0.op is None,
                            StepAct::Commit => st->Ok_0.op == Some(
                                SinkOp::<LabelV, ()>::Parent(st->Ok_0.cur),
                            ),
                            StepAct::Close => st->Ok_0.op == Some(SinkOp::<LabelV, ()>::Close),
                        }
                    },
                    Err(e) => {
                        &&& st is Err
                        &&& e@ == st->Err_0
                        &&& *final(self) == *old(self)
                    },
                }
            }),
    {
        match self.state {
            ParserState::Label => match ev {
                XmlEvent::Start(name, _) => {
                    let local = local_name_of(name.as_str());
                    if tag_is(&local, "label") {
                        self.current_label = Label::new();
                    } else if tag_is(&local, "name") {
                        self.state = ParserState::Name;
                    } else if tag_is(&local, "id") {
                        self.state = ParserState::Id;
                    } else if tag_is(&local, "contactinfo") {
                        self.state = ParserState::Contactinfo;
                    } else if tag_is(&local, "profile") {
                        self.state = ParserState::Profile;
                    } else if tag_is(&local, "parent_label") {
                        self.state = ParserState::ParentLabel;
                    } else if tag_is(&local, "sublabels") {
                        self.state = ParserState::Sublabels;
                    } else if tag_is(&local, "urls") {
                        self.state = ParserState::Urls;
                    } else if tag_is(&local, "data_quality") {
                        self.state = ParserState::DataQuality;
                    }
                    Ok(StepAct::Stay)
                },
                XmlEvent::End(name) => {
                    let local = local_name_of(name.as_str());
                    if tag_is(&local, "label") {
                        Ok(StepAct::Commit)
                    } else if tag_is(&local, "labels") {
                        Ok(StepAct::Close)
                    } else {
                        Ok(StepAct::Stay)
                    }
                },
                _ => Ok(StepAct::Stay),
            },
            ParserState::Name => match ev {
                XmlEvent::Text(raw) => match text_value(raw) {
                    Ok(s) => {
                        self.current_label.name = s;
                        Ok(StepAct::Stay)
                    },
                    Err(e) => Err(e),
                },
                XmlEvent::End(name) => {
                    let local = local_name_of(name.as_str());
                    if tag_is(&local, "name") {
                        self.state = ParserState::Label;
                    }
                    Ok(StepAct::Stay)
                },
                _ => Ok(StepAct::Stay),
            },
            ParserState::Id => match ev {
                XmlEvent::Text(raw) => match int_value(raw, "label.id") {
                    Ok(v) => {
                        self.current_label.id = v;
                        Ok(StepAct::Stay)
                    },
                    Err(e) => Err(e),
                },
                XmlEvent::End(name) => {
                    let local = local_name_of(name.as_str());
                    if tag_is(&local, "id") {
                        self.state = ParserState::Label;
                    }
                    Ok(StepAct::Stay)
                },
                _ => Ok(StepAct::Stay),
            },
            ParserState::Contactinfo => match ev {
                XmlEvent::Text(raw) => match text_value(raw) {
                    Ok(s) => {
                        self.current_label.contactinfo = s;
                        Ok(StepAct::Stay)
                    },
                    Err(e) => Err(e),
                },
                XmlEvent::End(name) => {
                    let local = local_name_of(name.as_str());
                    if tag_is(&local, "contactinfo") {
                        self.state = ParserState::Label;
                    }
                    Ok(StepAct::Stay)
                },
                _ => Ok(StepAct::Stay),
            },
            ParserState::Profile => match ev {
                XmlEvent::Text(raw) => match text_value(raw) {
                    Ok(s) => {
                        self.current_label.profile = s;
                        Ok(StepAct::Stay)
                    },
                    Err(e) => Err(e),
                },
                XmlEvent::End(name) => {
                    let local = local_name_of(name.as_str());
                    if tag_is(&local, "profile") {
                        self.state = ParserState::Label;
                    }
                    Ok(StepAct::Stay)
                },
                _ => Ok(StepAct::Stay),
            },
            ParserState::ParentLabel => match ev {
                XmlEvent::Text(raw) => match text_value(raw) {
                    Ok(s) => {
                        self.current_label.parent_label = s;
                        Ok(StepAct::Stay)
                    },
                    Err(e) => Err(e),
                },
                XmlEvent::End(name) => {
                    let local = local_name_of(name.as_str());
                    if tag_is(&local, "parent_label") {
                        self.state = ParserState::Label;
                    }
                    Ok(StepAct::Stay)
                },
                _ => Ok(StepAct::Stay),
            },
            ParserState::Sublabels => match ev {
                XmlEvent::Start(name, _) => {
                    let local = local_name_of(name.as_str());
                    if tag_is(&local, "label") {
                        self.state = ParserState::Sublabel;
                    }
                    Ok(StepAct::Stay)
                },
                XmlEvent::End(name) => {
                    let local = local_name_of(name.as_str());
                    if tag_is(&local, "sublabels") {
                        self.state = ParserState::Label;
                    }
                    Ok(StepAct::Stay)
                },
                _ => Ok(StepAct::Stay),
            },
            ParserState::Sublabel => match ev {
                XmlEvent::Text(raw) => match text_value(raw) {
                    Ok(s) => {
                        let ghost sv = s@;
                        self.current_label.sublabels.push(s);
                        self.state = ParserState::Sublabels;
                        proof {
                            assert(strs_view(self.current_label.sublabels@) =~= strs_view(
                                old(self).current_label.sublabels@,
                            ).push(sv));
                        }
                        Ok(StepAct::Stay)
                    },
                    Err(e) => Err(e),
                },
                _ => {
                    self.state = ParserState::Sublabels;
                    Ok(StepAct::Stay)
                },
            },
            ParserState::Urls => match ev {
                XmlEvent::Start(name, _) => {
                    let local = local_name_of(name.as_str());
                    if tag_is(&local, "url") {
                        self.state = ParserState::Url;
                    }
                    Ok(StepAct::Stay)
                },
                XmlEvent::End(name) => {
                    let local = local_name_of(name.as_str());
                    if tag_is(&local, "urls") {
                        self.state = ParserState::Label;
                    }
                    Ok(StepAct::Stay)
                },
                _ => Ok(StepAct::Stay),
            },
            ParserState::Url => match ev {
                XmlEvent::Text(raw) => match text_value(raw) {
                    Ok(s) => {
                        let ghost sv = s@;
                        self.current_label.urls.push(s);
                        self.state = ParserState::Urls;
                        proof {
                            assert(strs_view(self.current_label.urls@) =~= strs_view(
                                old(self).current_label.urls@,
                            ).push(sv));
                        }
                        Ok(StepAct::Stay)
                    },
                    Err(e) => Err(e),
                },
                _ => {
                    self.state = ParserState::Urls;
                    Ok(StepAct::Stay)
                },
            },
            ParserState::DataQuality => match ev {
                XmlEvent::Text(raw) => match text_value(raw) {
                    Ok(s) => {
                        self.current_label.data_quality = s;
                        Ok(StepAct::Stay)
                    },
                    Err(e) => Err(e),
                },
                XmlEvent::End(name) => {
                    let local = local_name_of(name.as_str());
                    if tag_is(&local, "data_quality") {
                        self.state = ParserState::Label;
                    }
                    Ok(StepAct::Stay)
                },
                _ => Ok(StepAct::Stay),
            },
        }
    }

    /// Feeds one event through the machine and the batch sink; the
    /// returned plan holds whatever this event flushed.
    pub fn process(&mut self, ev: XmlEvent) -> (r: Result<Vec<TableWrite>, LoadError>)
        requires
            old(self).wf(),
        ensures
            final(self).threshold() == old(self).threshold(),
            ({
                let b = old(self).threshold();
                let m0 = label_machine(old(self).history())->Ok_0;
                match r {
                    Ok(writes) => {
                        &&& final(self).wf()
                        &&& final(self).history() == old(self).history().push(ev@)
                        &&& label_machine(final(self).history()) is Ok
                        &&& {
                            let s0 = label_sink(old(self).history(), b);
                            let s1 = label_sink(final(self).history(), b);
                            &&& s0.flushed.is_prefix_of(s1.flushed)
                            &&& writes_view(writes@) == spec_write_labels(
                                s1.flushed.skip(s0.flushed.len() as int),
                            )
                        }
                    },
                    Err(e) => {
                        &&& *final(self) == *old(self)
                        &&& label_step(m0.state, m0.cur, ev@) is Err
                        &&& e@ == label_step(m0.state, m0.cur, ev@)->Err_0
                    },
                }
            }),
    {
        let ghost evv = ev@;
        let ghost m0 = label_machine(self.hist@)->Ok_0;
        let ghost b = self.batch_size as nat;
        let ghost s0 = sink_run(m0.ops, label_key(), b);
        let act = match self.machine_step(ev) {
            Ok(a) => a,
            Err(e) => {
                return Err(e);
            },
        };
        proof {
            lemma_label_machine_snoc(self.hist@, evv);
        }
        let ghost st = label_step(m0.state, m0.cur, evv)->Ok_0;
        self.hist = Ghost(self.hist@.push(evv));
        match act {
            StepAct::Stay => {
                proof {
                    assert(s0.flushed.skip(s0.flushed.len() as int) =~= Seq::<LabelV>::empty());
                }
                Ok(no_writes())
            },
            StepAct::Commit => {
                let k = self.current_label.id;
                let rec = self.current_label.clone();
                proof {
                    lemma_sink_run_snoc(m0.ops, SinkOp::Parent(st.cur), label_key(), b);
                    lemma_batch_keys_push(s0.batch, label_key(), st.cur);
                    if self.labels.keys().contains(k) {
                        assert(batch_keys(s0.batch, label_key()).insert(k) =~= batch_keys(
                            s0.batch,
                            label_key(),
                        ));
                    }
                }
                self.labels.commit(k, rec);
                if self.labels.len() >= self.batch_size {
                    let rows = self.labels.take();
                    let w = write_labels(&rows);
                    proof {
                        let s1 = label_sink(self.hist@, b);
                        lemma_batch_keys_empty(label_key());
                        assert(s1.flushed.skip(s0.flushed.len() as int) =~= recs_view(rows@));
                    }
                    Ok(w)
                } else {
                    proof {
                        let s1 = label_sink(self.hist@, b);
                        assert(s1.flushed.skip(s0.flushed.len() as int) =~= Seq::<LabelV>::empty());
                    }
                    Ok(no_writes())
                }
            },
            StepAct::Close => {
                let rows = self.labels.take();
                let w = write_labels(&rows);
                proof {
                    lemma_sink_run_snoc(m0.ops, SinkOp::Close, label_key(), b);
                    lemma_batch_keys_empty(label_key());
                    let s1 = label_sink(self.hist@, b);
                    assert(s1.flushed.skip(s0.flushed.len() as int) =~= recs_view(rows@));
                }
                Ok(w)
            },
        }
    }
}

/// Parser purity: two label parsers that saw the same events have
/// committed exactly the same records, whatever their batch sizes.
pub proof fn lemma_labels_purity(p1: &LabelsParser, p2: &LabelsParser)
    requires
        p1.wf(),
        p2.wf(),
        p1.history() == p2.history(),
    ensures
        label_sink(p1.history(), p1.threshold()).committed == label_sink(
            p2.history(),
            p2.threshold(),
        ).committed,
{
    lemma_purity(
        label_machine(p1.history())->Ok_0.ops,
        label_key(),
        p1.threshold(),
        p2.threshold(),
    );
}

/// First write wins: when two records of the current batch were committed
/// under one id, the pending rows hold the first of them and no other row
/// with that id — the later duplicate was silently dropped.
pub proof fn lemma_labels_first_write_wins(p: &LabelsParser, i: int, j: int)
    requires
        p.wf(),
        0 <= i < j < label_sink(p.history(), p.threshold()).batch.len(),
        label_sink(p.history(), p.threshold()).batch[j].id == label_sink(
            p.history(),
            p.threshold(),
        ).batch[i].id,
        forall|m: int|
            0 <= m < i ==> (#[trigger] label_sink(p.history(), p.threshold()).batch[m]).id
                != label_sink(p.history(), p.threshold()).batch[i].id,
    ensures
        p.pending_rows().contains(label_sink(p.history(), p.threshold()).batch[i]),
        forall|q: LabelV|
            p.pending_rows().contains(q) && q.id == label_sink(
                p.history(),
                p.threshold(),
            ).batch[i].id ==> q == label_sink(p.history(), p.threshold()).batch[i],
{
    lemma_sink_run_faithful(label_machine(p.history())->Ok_0.ops, label_key(), p.threshold());
    lemma_first_write_wins(
        label_sink(p.history(), p.threshold()).batch,
        label_key(),
        i,
        j,
    );
}

/// Round-trip of an empty record: a label element with no nested field
/// elements commits with every column at its default — empty strings, a
/// zero id, empty arrays.
pub proof fn lemma_label_empty_record_defaults(
    evs: Seq<EventV>,
    sname: Seq<char>,
    sattrs: Seq<Seq<char>>,
    ename: Seq<char>,
)
    requires
        label_machine(evs) is Ok,
        label_machine(evs)->Ok_0.state is Label,
        spec_local_name(sname) == "label"@,
        spec_local_name(ename) == "label"@,
    ensures
        ({
            let evs2 = evs.push(EventV::Start { name: sname, attrs: sattrs }).push(
                EventV::End { name: ename },
            );
            &&& label_machine(evs2) is Ok
            &&& label_machine(evs2)->Ok_0.ops == label_machine(evs)->Ok_0.ops.push(
                SinkOp::Parent(label_default()),
            )
        }),
{
    let ev1 = EventV::Start { name: sname, attrs: sattrs };
    let ev2 = EventV::End { name: ename };
    lemma_label_machine_snoc(evs, ev1);
    lemma_label_machine_snoc(evs.push(ev1), ev2);
}

/// Batching faithfulness: every label row the sink accepted has either
/// been handed to the bulk writer or is still pending.
pub proof fn lemma_labels_batching_faithful(p: &LabelsParser)
    requires
        p.wf(),
    ensures
        label_sink(p.history(), p.threshold()).accepted == label_sink(
            p.history(),
            p.threshold(),
        ).flushed + p.pending_rows(),
{
    lemma_sink_run_faithful(label_machine(p.history())->Ok_0.ops, label_key(), p.threshold());
}

} // verus!
