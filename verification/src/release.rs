//! The release entity parser: reconstructs [`Release`] records together
//! with their [`ReleaseLabel`] and [`ReleaseVideo`] child rows.
//!
//! A release's id and status arrive as positional attributes of its
//! opening tag; label credits arrive as self-closing tags inside
//! `labels`, video credits as opening tags inside `videos`, both read
//! positionally.  The machine is written once as the spec function
//! [`release_step`] and once as executable code proved to follow it.

use vstd::prelude::*;

use crate::error::{LoadError, LoadErrorV};
use crate::events::{spec_local_name, strs_view, local_name_of, tag_is, EventV, XmlEvent};
use crate::rows::{
    release_default, Release, ReleaseLabel, ReleaseLabelV, ReleaseV, ReleaseVideo, ReleaseVideoV,
};
use crate::sink::{
    batch_keys, has_key, lemma_batch_keys_empty, lemma_batch_keys_push,
    lemma_child_parent_locality, lemma_first_write_wins, lemma_purity, lemma_sink_run_faithful,
    lemma_sink_run_snoc, scoped, DedupRows, SinkOp, SinkState, sink_run,
};
use crate::sql::{
    no_writes, recs_view, spec_write_releases, write_releases, writes_view, DbOpt, TableWrite,
    TableWriteV,
};
use crate::text::{spec_int_value, spec_text_value, int_value, text_value};

verus! {

/// One child row of a release: a label credit or a video credit.
pub ghost enum ReleaseChildV {
    Lab(ReleaseLabelV),
    Vid(ReleaseVideoV),
}

/// The label credits among a sequence of child rows, in order.
pub open spec fn child_labels(kids: Seq<ReleaseChildV>) -> Seq<ReleaseLabelV>
    decreases kids.len(),
{
    if kids.len() == 0 {
        Seq::empty()
    } else {
        let pre = child_labels(kids.drop_last());
        match kids.last() {
            ReleaseChildV::Lab(l) => pre.push(l),
            ReleaseChildV::Vid(_) => pre,
        }
    }
}

/// The video credits among a sequence of child rows, in order.
pub open spec fn child_videos(kids: Seq<ReleaseChildV>) -> Seq<ReleaseVideoV>
    decreases kids.len(),
{
    if kids.len() == 0 {
        Seq::empty()
    } else {
        let pre = child_videos(kids.drop_last());
        match kids.last() {
            ReleaseChildV::Lab(_) => pre,
            ReleaseChildV::Vid(v) => pre.push(v),
        }
    }
}

/// Splitting child rows distributes over concatenation.
pub proof fn lemma_children_concat(a: Seq<ReleaseChildV>, b: Seq<ReleaseChildV>)
    ensures
        child_labels(a + b) == child_labels(a) + child_labels(b),
        child_videos(a + b) == child_videos(a) + child_videos(b),
    decreases b.len(),
{
    if b.len() == 0 {
        assert(a + b =~= a);
        assert(child_labels(a) + child_labels(b) =~= child_labels(a));
        assert(child_videos(a) + child_videos(b) =~= child_videos(a));
    } else {
        lemma_children_concat(a, b.drop_last());
        assert((a + b).drop_last() =~= a + b.drop_last());
        assert((a + b).last() == b.last());
        match b.last() {
            ReleaseChildV::Lab(l) => {
                assert(child_labels(a) + child_labels(b.drop_last()).push(l) =~= (child_labels(a)
                    + child_labels(b.drop_last())).push(l));
                assert(child_videos(a) + child_videos(b.drop_last()) =~= child_videos(a + b));
            },
            ReleaseChildV::Vid(v) => {
                assert(child_videos(a) + child_videos(b.drop_last()).push(v) =~= (child_videos(a)
                    + child_videos(b.drop_last())).push(v));
                assert(child_labels(a) + child_labels(b.drop_last()) =~= child_labels(a + b));
            },
        }
    }
}

/// The states of the release machine.
#[derive(Debug, Clone, Copy)]
pub enum ParserReadState {
    Release,
    Title,
    Country,
    Released,
    Notes,
    Genres,
    Genre,
    Styles,
    Style,
    MasterId,
    DataQuality,
    Labels,
    Videos,
}

/// The primary key of a release row.
pub open spec fn release_key() -> spec_fn(ReleaseV) -> i32 {
    |r: ReleaseV| r.id
}

/// What one step of the release machine produces.
pub ghost struct ReleaseStep {
    pub state: ParserReadState,
    pub cur: ReleaseV,
    pub op: Option<SinkOp<ReleaseV, ReleaseChildV>>,
}

/// One transition of the release machine.
pub open spec fn release_step(state: ParserReadState, cur: ReleaseV, ev: EventV) -> Result<
    ReleaseStep,
    LoadErrorV,
> {
    match state {
        ParserReadState::Release => match ev {
            EventV::Start { name, attrs } => {
                let local = spec_local_name(name);
                if local == "release"@ {
                    if attrs.len() < 2 {
                        Err(LoadErrorV::Attr { index: 1 })
                    } else {
                        match spec_text_value(attrs[1]) {
                            Err(e) => Err(e),
                            Ok(status) => match spec_int_value(attrs[0], "release.id"@) {
                                Err(e) => Err(e),
                                Ok(id) => Ok(ReleaseStep {
                                    state: ParserReadState::Release,
                                    cur: ReleaseV { id, status, ..release_default() },
                                    op: None,
                                }),
                            },
                        }
                    }
                } else if local == "title"@ {
                    Ok(ReleaseStep { state: ParserReadState::Title, cur, op: None })
                } else if local == "country"@ {
                    Ok(ReleaseStep { state: ParserReadState::Country, cur, op: None })
                } else if local == "released"@ {
                    Ok(ReleaseStep { state: ParserReadState::Released, cur, op: None })
                } else if local == "notes"@ {
                    Ok(ReleaseStep { state: ParserReadState::Notes, cur, op: None })
                } else if local == "genres"@ {
                    Ok(ReleaseStep { state: ParserReadState::Genres, cur, op: None })
                } else if local == "styles"@ {
                    Ok(ReleaseStep { state: ParserReadState::Styles, cur, op: None })
                } else if local == "master_id"@ {
                    Ok(ReleaseStep { state: ParserReadState::MasterId, cur, op: None })
                } else if local == "data_quality"@ {
                    Ok(ReleaseStep { state: ParserReadState::DataQuality, cur, op: None })
                } else if local == "labels"@ {
                    Ok(ReleaseStep { state: ParserReadState::Labels, cur, op: None })
                } else if local == "videos"@ {
                    Ok(ReleaseStep { state: ParserReadState::Videos, cur, op: None })
                } else {
                    Ok(ReleaseStep { state: ParserReadState::Release, cur, op: None })
                }
            },
            EventV::End { name } => {
                let local = spec_local_name(name);
                if local == "release"@ {
                    Ok(ReleaseStep {
                        state: ParserReadState::Release,
                        cur,
                        op: Some(SinkOp::Parent(cur)),
                    })
                } else if local == "releases"@ {
                    Ok(ReleaseStep { state: ParserReadState::Release, cur, op: Some(SinkOp::Close) })
                } else {
                    Ok(ReleaseStep { state: ParserReadState::Release, cur, op: None })
                }
            },
            _ => Ok(ReleaseStep { state: ParserReadState::Release, cur, op: None }),
        },
        ParserReadState::Title => match ev {
            EventV::Text { raw } => match spec_text_value(raw) {
                Ok(s) => Ok(ReleaseStep {
                    state: ParserReadState::Title,
                    cur: ReleaseV { title: s, ..cur },
                    op: None,
                }),
                Err(e) => Err(e),
            },
            EventV::End { name } => if spec_local_name(name) == "title"@ {
                Ok(ReleaseStep { state: ParserReadState::Release, cur, op: None })
            } else {
                Ok(ReleaseStep { state: ParserReadState::Title, cur, op: None })
            },
            _ => Ok(ReleaseStep { state: ParserReadState::Title, cur, op: None }),
        },
        ParserReadState::Country => match ev {
            EventV::Text { raw } => match spec_text_value(raw) {
                Ok(s) => Ok(ReleaseStep {
                    state: ParserReadState::Country,
                    cur: ReleaseV { country: s, ..cur },
                    op: None,
                }),
                Err(e) => Err(e),
            },
            EventV::End { name } => if spec_local_name(name) == "country"@ {
                Ok(ReleaseStep { state: ParserReadState::Release, cur, op: None })
            } else {
                Ok(ReleaseStep { state: ParserReadState::Country, cur, op: None })
            },
            _ => Ok(ReleaseStep { state: ParserReadState::Country, cur, op: None }),
        },
        ParserReadState::Released => match ev {
            EventV::Text { raw } => match spec_text_value(raw) {
                Ok(s) => Ok(ReleaseStep {
                    state: ParserReadState::Released,
                    cur: ReleaseV { released: s, ..cur },
                    op: None,
                }),
                Err(e) => Err(e),
            },
            EventV::End { name } => if spec_local_name(name) == "released"@ {
                Ok(ReleaseStep { state: ParserReadState::Release, cur, op: None })
            } else {
                Ok(ReleaseStep { state: ParserReadState::Released, cur, op: None })
            },
            _ => Ok(ReleaseStep { state: ParserReadState::Released, cur, op: None }),
        },
        ParserReadState::Notes => match ev {
            EventV::Text { raw } => match spec_text_value(raw) {
                Ok(s) => Ok(ReleaseStep {
                    state: ParserReadState::Notes,
                    cur: ReleaseV { notes: s, ..cur },
                    op: None,
                }),
                Err(e) => Err(e),
            },
            EventV::End { name } => if spec_local_name(name) == "notes"@ {
                Ok(ReleaseStep { state: ParserReadState::Release, cur, op: None })
            } else {
                Ok(ReleaseStep { state: ParserReadState::Notes, cur, op: None })
            },
            _ => Ok(ReleaseStep { state: ParserReadState::Notes, cur, op: None }),
        },
        ParserReadState::Genres => match ev {
            EventV::Start { name, attrs } => if spec_local_name(name) == "genre"@ {
                Ok(ReleaseStep { state: ParserReadState::Genre, cur, op: None })
            } else {
                Ok(ReleaseStep { state: ParserReadState::Genres, cur, op: None })
            },
            EventV::End { name } => if spec_local_name(name) == "genres"@ {
                Ok(ReleaseStep { state: ParserReadState::Release, cur, op: None })
            } else {
                Ok(ReleaseStep { state: ParserReadState::Genres, cur, op: None })
            },
            _ => Ok(ReleaseStep { state: ParserReadState::Genres, cur, op: None }),
        },
        ParserReadState::Genre => match ev {
            EventV::Text { raw } => match spec_text_value(raw) {
                Ok(s) => Ok(ReleaseStep {
                    state: ParserReadState::Genres,
                    cur: ReleaseV { genres: cur.genres.push(s), ..cur },
                    op: None,
                }),
                Err(e) => Err(e),
            },
            _ => Ok(ReleaseStep { state: ParserReadState::Genres, cur, op: None }),
        },
        ParserReadState::Styles => match ev {
            EventV::Start { name, attrs } => if spec_local_name(name) == "style"@ {
                Ok(ReleaseStep { state: ParserReadState::Style, cur, op: None })
            } else {
                Ok(ReleaseStep { state: ParserReadState::Styles, cur, op: None })
            },
            EventV::End { name } => if spec_local_name(name) == "styles"@ {
                Ok(ReleaseStep { state: ParserReadState::Release, cur, op: None })
            } else {
                Ok(ReleaseStep { state: ParserReadState::Styles, cur, op: None })
            },
            _ => Ok(ReleaseStep { state: ParserReadState::Styles, cur, op: None }),
        },
        ParserReadState::Style => match ev {
            EventV::Text { raw } => match spec_text_value(raw) {
                Ok(s) => Ok(ReleaseStep {
                    state: ParserReadState::Styles,
                    cur: ReleaseV { styles: cur.styles.push(s), ..cur },
                    op: None,
                }),
                Err(e) => Err(e),
            },
            _ => Ok(ReleaseStep { state: ParserReadState::Styles, cur, op: None }),
        },
        ParserReadState::MasterId => match ev {
            EventV::Text { raw } => match spec_int_value(raw, "release.master_id"@) {
                Ok(v) => Ok(ReleaseStep {
                    state: ParserReadState::MasterId,
                    cur: ReleaseV { master_id: v, ..cur },
                    op: None,
                }),
                Err(e) => Err(e),
            },
            EventV::End { name } => if spec_local_name(name) == "master_id"@ {
                Ok(ReleaseStep { state: ParserReadState::Release, cur, op: None })
            } else {
                Ok(ReleaseStep { state: ParserReadState::MasterId, cur, op: None })
            },
            _ => Ok(ReleaseStep { state: ParserReadState::MasterId, cur, op: None }),
        },
        ParserReadState::DataQuality => match ev {
            EventV::Text { raw } => match spec_text_value(raw) {
                Ok(s) => Ok(ReleaseStep {
                    state: ParserReadState::DataQuality,
                    cur: ReleaseV { data_quality: s, ..cur },
                    op: None,
                }),
                Err(e) => Err(e),
            },
            EventV::End { name } => if spec_local_name(name) == "data_quality"@ {
                Ok(ReleaseStep { state: ParserReadState::Release, cur, op: None })
            } else {
                Ok(ReleaseStep { state: ParserReadState::DataQuality, cur, op: None })
            },
            _ => Ok(ReleaseStep { state: ParserReadState::DataQuality, cur, op: None }),
        },
        ParserReadState::Labels => match ev {
            EventV::Empty { name, attrs } => {
                if attrs.len() < 3 {
                    Err(LoadErrorV::Attr { index: attrs.len() as usize })
                } else {
                    match spec_text_value(attrs[0]) {
                        Err(e) => Err(e),
                        Ok(lab) => match spec_text_value(attrs[1]) {
                            Err(e) => Err(e),
                            Ok(cat) => match spec_int_value(attrs[2], "release.label.id"@) {
                                Err(e) => Err(e),
                                Ok(lid) => Ok(ReleaseStep {
                                    state: ParserReadState::Labels,
                                    cur,
                                    op: Some(SinkOp::Child(ReleaseChildV::Lab(ReleaseLabelV {
                                        release_id: cur.id,
                                        label: lab,
                                        catno: cat,
                                        label_id: lid,
                                    }))),
                                }),
                            },
                        },
                    }
                }
            },
            EventV::End { name } => if spec_local_name(name) == "labels"@ {
                Ok(ReleaseStep { state: ParserReadState::Release, cur, op: None })
            } else {
                Ok(ReleaseStep { state: ParserReadState::Labels, cur, op: None })
            },
            _ => Ok(ReleaseStep { state: ParserReadState::Labels, cur, op: None }),
        },
        ParserReadState::Videos => match ev {
            EventV::Start { name, attrs } => {
                if spec_local_name(name) == "video"@ {
                    if attrs.len() < 2 {
                        Err(LoadErrorV::Attr { index: attrs.len() as usize })
                    } else {
                        match spec_text_value(attrs[0]) {
                            Err(e) => Err(e),
                            Ok(src) => match spec_int_value(
                                attrs[1],
                                "release.video.duration"@,
                            ) {
                                Err(e) => Err(e),
                                Ok(dur) => Ok(ReleaseStep {
                                    state: ParserReadState::Videos,
                                    cur,
                                    op: Some(SinkOp::Child(ReleaseChildV::Vid(ReleaseVideoV {
                                        release_id: cur.id,
                                        duration: dur,
                                        src,
                                        title: Seq::empty(),
                                    }))),
                                }),
                            },
                        }
                    }
                } else {
                    Ok(ReleaseStep { state: ParserReadState::Videos, cur, op: None })
                }
            },
            EventV::End { name } => if spec_local_name(name) == "videos"@ {
                Ok(ReleaseStep { state: ParserReadState::Release, cur, op: None })
            } else {
                Ok(ReleaseStep { state: ParserReadState::Videos, cur, op: None })
            },
            _ => Ok(ReleaseStep { state: ParserReadState::Videos, cur, op: None }),
        },
    }
}

/// The machine's whole account of an event history.
pub ghost struct ReleaseModel {
    pub state: ParserReadState,
    pub cur: ReleaseV,
    pub ops: Seq<SinkOp<ReleaseV, ReleaseChildV>>,
}

/// Runs the release machine over an event history.
pub open spec fn release_machine(evs: Seq<EventV>) -> Result<ReleaseModel, LoadErrorV>
    decreases evs.len(),
{
    if evs.len() == 0 {
        Ok(ReleaseModel { state: ParserReadState::Release, cur: release_default(), ops: Seq::empty() })
    } else {
        match release_machine(evs.drop_last()) {
            Err(e) => Err(e),
            Ok(m) => match release_step(m.state, m.cur, evs.last()) {
                Err(e) => Err(e),
                Ok(st) => Ok(ReleaseModel {
                    state: st.state,
                    cur: st.cur,
                    ops: match st.op {
                        Some(op) => m.ops.push(op),
                        None => m.ops,
                    },
                }),
            },
        }
    }
}

/// Appending one event advances the machine by one step.
pub proof fn lemma_release_machine_snoc(evs: Seq<EventV>, ev: EventV)
    requires
        release_machine(evs) is Ok,
    ensures
        ({
            let m = release_machine(evs)->Ok_0;
            match release_step(m.state, m.cur, ev) {
                Ok(st) => release_machine(evs.push(ev)) == Ok::<ReleaseModel, LoadErrorV>(
                    ReleaseModel {
                        state: st.state,
                        cur: st.cur,
                        ops: match st.op {
                            Some(op) => m.ops.push(op),
                            None => m.ops,
                        },
                    },
                ),
                Err(e) => release_machine(evs.push(ev)) == Err::<ReleaseModel, LoadErrorV>(e),
            }
        }),
{
    assert(evs.push(ev).drop_last() =~= evs);
    assert(evs.push(ev).last() == ev);
}

/// The sink state an event history leaves behind, under threshold `b`.
pub open spec fn release_sink(evs: Seq<EventV>, b: nat) -> SinkState<ReleaseV, ReleaseChildV> {
    sink_run(release_machine(evs)->Ok_0.ops, release_key(), b)
}

/// What the executable machine step reports back to the batching layer.
enum StepAct {
    Stay,
    Commit,
    CommitLabel(ReleaseLabel),
    CommitVideo(ReleaseVideo),
    Close,
}

/// The release entity parser: machine state, the current release scratch
/// slot and the accumulating batches of all three tables.
pub struct ReleasesParser {
    state: ParserReadState,
    current_release: Release,
    releases: DedupRows<Release>,
    release_labels: Vec<ReleaseLabel>,
    release_videos: Vec<ReleaseVideo>,
    batch_size: usize,
    hist: Ghost<Seq<EventV>>,
}

impl ReleasesParser {
    /// The events processed so far.
    pub closed spec fn history(&self) -> Seq<EventV> {
        self.hist@
    }

    /// The batch threshold the parser was built with.
    pub closed spec fn threshold(&self) -> nat {
        self.batch_size as nat
    }

    /// The accepted release rows of the current batch, in first-seen order.
    pub closed spec fn pending_rows(&self) -> Seq<ReleaseV> {
        self.releases.rows_view()
    }

    /// The label-credit rows of the current batch, in arrival order.
    pub closed spec fn pending_labels(&self) -> Seq<ReleaseLabelV> {
        recs_view(self.release_labels@)
    }

    /// The video-credit rows of the current batch, in arrival order.
    pub closed spec fn pending_videos(&self) -> Seq<ReleaseVideoV> {
        recs_view(self.release_videos@)
    }

    /// The parser follows the machine and the sink model of its history.
    pub closed spec fn wf(&self) -> bool {
        let r = release_machine(self.hist@);
        &&& r is Ok
        &&& {
            let m = r->Ok_0;
            let s = sink_run(m.ops, release_key(), self.batch_size as nat);
            &&& self.state == m.state
            &&& self.current_release@ == m.cur
            &&& self.releases.rows_view() == s.pending
            &&& self.releases.keys() == batch_keys(s.batch, release_key())
            &&& recs_view(self.release_labels@) == child_labels(s.kids_pending)
            &&& recs_view(self.release_videos@) == child_videos(s.kids_pending)
        }
    }

    /// A fresh parser bound to the configured batch size.
    pub fn new(db_opts: &DbOpt) -> (r: Self)
        ensures
            r.wf(),
            r.history() == Seq::<EventV>::empty(),
            r.threshold() == db_opts.batch_size as nat,
    {
        let r = ReleasesParser {
            state: ParserReadState::Release,
            current_release: Release::new(),
            releases: DedupRows::new(),
            release_labels: Vec::new(),
            release_videos: Vec::new(),
            batch_size: db_opts.batch_size,
            hist: Ghost(Seq::empty()),
        };
        proof {
            lemma_batch_keys_empty(release_key());
            assert(recs_view(r.release_labels@) =~= Seq::<ReleaseLabelV>::empty());
            assert(recs_view(r.release_videos@) =~= Seq::<ReleaseVideoV>::empty());
        }
        r
    }

    /// Runs one machine transition: updates the state and the current
    /// record, and reports which sink operation the event asks for.
    fn machine_step(&mut self, ev: XmlEvent) -> (r: Result<StepAct, LoadError>)
        ensures
            final(self).batch_size == old(self).batch_size,
            final(self).releases == old(self).releases,
            final(self).release_labels == old(self).release_labels,
            final(self).release_videos == old(self).release_videos,
            final(self).hist == old(self).hist,
            ({
                let st = release_step(old(self).state, old(self).current_release@, ev@);
                match r {
                    Ok(act) => {
                        &&& st is Ok
                        &&& final(self).state == st->Ok_0.state
                        &&& final(self).current_release@ == st->Ok_0.cur
                        &&& match act {
                            StepAct::Stay => st->Ok_0.op is None,
                            StepAct::Commit => st->Ok_0.op == Some(
                                SinkOp::<ReleaseV, ReleaseChildV>::Parent(st->Ok_0.cur),
                            ),
                            StepAct::CommitLabel(l) => st->Ok_0.op == Some(
                                SinkOp::<ReleaseV, ReleaseChildV>::Child(ReleaseChildV::Lab(l@)),
                            ),
                            StepAct::CommitVideo(v) => st->Ok_0.op == Some(
                                SinkOp::<ReleaseV, ReleaseChildV>::Child(ReleaseChildV::Vid(v@)),
                            ),
                            StepAct::Close => st->Ok_0.op == Some(
                                SinkOp::<ReleaseV, ReleaseChildV>::Close,
                            ),
                        }
                    },
                    Err(e) => {
                        &&& st is Err
                        &&& e@ == st->Err_0
                        &&& *final(self) == *old(self)
                    },
                }
            }),
    {
        match self.state {
            ParserReadState::Release => match ev {
                XmlEvent::Start(name, attrs) => {
                    let local = local_name_of(name.as_str());
                    if tag_is(&local, "release") {
                        if attrs.len() < 2 {
                            return Err(LoadError::Attr { index: 1 });
                        }
                        let status = match text_value(attrs[1].clone()) {
                            Ok(s) => s,
                            Err(e) => {
                                return Err(e);
                            },
                        };
                        match int_value(attrs[0].clone(), "release.id") {
                            Ok(id) => {
                                self.current_release = Release::new();
                                self.current_release.id = id;
                                self.current_release.status = status;
                                Ok(StepAct::Stay)
                            },
                            Err(e) => Err(e),
                        }
                    } else {
                        if tag_is(&local, "title") {
                            self.state = ParserReadState::Title;
                        } else if tag_is(&local, "country") {
                            self.state = ParserReadState::Country;
                        } else if tag_is(&local, "released") {
                            self.state = ParserReadState::Released;
                        } else if tag_is(&local, "notes") {
                            self.state = ParserReadState::Notes;
                        } else if tag_is(&local, "genres") {
                            self.state = ParserReadState::Genres;
                        } else if tag_is(&local, "styles") {
                            self.state = ParserReadState::Styles;
                        } else if tag_is(&local, "master_id") {
                            self.state = ParserReadState::MasterId;
                        } else if tag_is(&local, "data_quality") {
                            self.state = ParserReadState::DataQuality;
                        } else if tag_is(&local, "labels") {
                            self.state = ParserReadState::Labels;
                        } else if tag_is(&local, "videos") {
                            self.state = ParserReadState::Videos;
                        }
                        Ok(StepAct::Stay)
                    }
                },
                XmlEvent::End(name) => {
                    let local = local_name_of(name.as_str());
                    if tag_is(&local, "release") {
                        Ok(StepAct::Commit)
                    } else if tag_is(&local, "releases") {
                        Ok(StepAct::Close)
                    } else {
                        Ok(StepAct::Stay)
                    }
                },
                _ => Ok(StepAct::Stay),
            },
            ParserReadState::Title => match ev {
                XmlEvent::Text(raw) => match text_value(raw) {
                    Ok(s) => {
                        self.current_release.title = s;
                        Ok(StepAct::Stay)
                    },
                    Err(e) => Err(e),
                },
                XmlEvent::End(name) => {
                    let local = local_name_of(name.as_str());
                    if tag_is(&local, "title") {
                        self.state = ParserReadState::Release;
                    }
                    Ok(StepAct::Stay)
                },
                _ => Ok(StepAct::Stay),
            },
            ParserReadState::Country => match ev {
                XmlEvent::Text(raw) => match text_value(raw) {
                    Ok(s) => {
                        self.current_release.country = s;
                        Ok(StepAct::Stay)
                    },
                    Err(e) => Err(e),
                },
                XmlEvent::End(name) => {
                    let local = local_name_of(name.as_str());
                    if tag_is(&local, "country") {
                        self.state = ParserReadState::Release;
                    }
                    Ok(StepAct::Stay)
                },
                _ => Ok(StepAct::Stay),
            },
            ParserReadState::Released => match ev {
                XmlEvent::Text(raw) => match text_value(raw) {
                    Ok(s) => {
                        self.current_release.released = s;
                        Ok(StepAct::Stay)
                    },
                    Err(e) => Err(e),
                },
                XmlEvent::End(name) => {
                    let local = local_name_of(name.as_str());
                    if tag_is(&local, "released") {
                        self.state = ParserReadState::Release;
                    }
                    Ok(StepAct::Stay)
                },
                _ => Ok(StepAct::Stay),
            },
            ParserReadState::Notes => match ev {
                XmlEvent::Text(raw) => match text_value(raw) {
                    Ok(s) => {
                        self.current_release.notes = s;
                        Ok(StepAct::Stay)
                    },
                    Err(e) => Err(e),
                },
                XmlEvent::End(name) => {
                    let local = local_name_of(name.as_str());
                    if tag_is(&local, "notes") {
                        self.state = ParserReadState::Release;
                    }
                    Ok(StepAct::Stay)
                },
                _ => Ok(StepAct::Stay),
            },
            ParserReadState::Genres => match ev {
                XmlEvent::Start(name, _) => {
                    let local = local_name_of(name.as_str());
                    if tag_is(&local, "genre") {
                        self.state = ParserReadState::Genre;
                    }
                    Ok(StepAct::Stay)
                },
                XmlEvent::End(name) => {
                    let local = local_name_of(name.as_str());
                    if tag_is(&local, "genres") {
                        self.state = ParserReadState::Release;
                    }
                    Ok(StepAct::Stay)
                },
                _ => Ok(StepAct::Stay),
            },
            ParserReadState::Genre => match ev {
                XmlEvent::Text(raw) => match text_value(raw) {
                    Ok(s) => {
                        let ghost sv = s@;
                        self.current_release.genres.push(s);
                        self.state = ParserReadState::Genres;
                        proof {
                            assert(strs_view(self.current_release.genres@) =~= strs_view(
                                old(self).current_release.genres@,
                            ).push(sv));
                        }
                        Ok(StepAct::Stay)
                    },
                    Err(e) => Err(e),
                },
                _ => {
                    self.state = ParserReadState::Genres;
                    Ok(StepAct::Stay)
                },
            },
            ParserReadState::Styles => match ev {
                XmlEvent::Start(name, _) => {
                    let local = local_name_of(name.as_str());
                    if tag_is(&local, "style") {
                        self.state = ParserReadState::Style;
                    }
                    Ok(StepAct::Stay)
                },
                XmlEvent::End(name) => {
                    let local = local_name_of(name.as_str());
                    if tag_is(&local, "styles") {
                        self.state = ParserReadState::Release;
                    }
                    Ok(StepAct::Stay)
                },
                _ => Ok(StepAct::Stay),
            },
            ParserReadState::Style => match ev {
                XmlEvent::Text(raw) => match text_value(raw) {
                    Ok(s) => {
                        let ghost sv = s@;
                        self.current_release.styles.push(s);
                        self.state = ParserReadState::Styles;
                        proof {
                            assert(strs_view(self.current_release.styles@) =~= strs_view(
                                old(self).current_release.styles@,
                            ).push(sv));
                        }
                        Ok(StepAct::Stay)
                    },
                    Err(e) => Err(e),
                },
                _ => {
                    self.state = ParserReadState::Styles;
                    Ok(StepAct::Stay)
                },
            },
            ParserReadState::MasterId => match ev {
                XmlEvent::Text(raw) => match int_value(raw, "release.master_id") {
                    Ok(v) => {
                        self.current_release.master_id = v;
                        Ok(StepAct::Stay)
                    },
                    Err(e) => Err(e),
                },
                XmlEvent::End(name) => {
                    let local = local_name_of(name.as_str());
                    if tag_is(&local, "master_id") {
                        self.state = ParserReadState::Release;
                    }
                    Ok(StepAct::Stay)
                },
                _ => Ok(StepAct::Stay),
            },
            ParserReadState::DataQuality => match ev {
                XmlEvent::Text(raw) => match text_value(raw) {
                    Ok(s) => {
                        self.current_release.data_quality = s;
                        Ok(StepAct::Stay)
                    },
                    Err(e) => Err(e),
                },
                XmlEvent::End(name) => {
                    let local = local_name_of(name.as_str());
                    if tag_is(&local, "data_quality") {
                        self.state = ParserReadState::Release;
                    }
                    Ok(StepAct::Stay)
                },
                _ => Ok(StepAct::Stay),
            },
            ParserReadState::Labels => match ev {
                XmlEvent::Empty(_, attrs) => {
                    if attrs.len() < 3 {
                        return Err(LoadError::Attr { index: attrs.len() });
                    }
                    let lab = match text_value(attrs[0].clone()) {
                        Ok(s) => s,
                        Err(e) => {
                            return Err(e);
                        },
                    };
                    let cat = match text_value(attrs[1].clone()) {
                        Ok(s) => s,
                        Err(e) => {
                            return Err(e);
                        },
                    };
                    match int_value(attrs[2].clone(), "release.label.id") {
                        Ok(lid) => Ok(StepAct::CommitLabel(ReleaseLabel {
                            release_id: self.current_release.id,
                            label: lab,
                            catno: cat,
                            label_id: lid,
                        })),
                        Err(e) => Err(e),
                    }
                },
                XmlEvent::End(name) => {
                    let local = local_name_of(name.as_str());
                    if tag_is(&local, "labels") {
                        self.state = ParserReadState::Release;
                    }
                    Ok(StepAct::Stay)
                },
                _ => Ok(StepAct::Stay),
            },
            ParserReadState::Videos => match ev {
                XmlEvent::Start(name, attrs) => {
                    let local = local_name_of(name.as_str());
                    if tag_is(&local, "video") {
                        if attrs.len() < 2 {
                            return Err(LoadError::Attr { index: attrs.len() });
                        }
                        let src = match text_value(attrs[0].clone()) {
                            Ok(s) => s,
                            Err(e) => {
                                return Err(e);
                            },
                        };
                        match int_value(attrs[1].clone(), "release.video.duration") {
                            Ok(dur) => Ok(StepAct::CommitVideo(ReleaseVideo {
                                release_id: self.current_release.id,
                                duration: dur,
                                src,
                                title: String::new(),
                            })),
                            Err(e) => Err(e),
                        }
                    } else {
                        Ok(StepAct::Stay)
                    }
                },
                XmlEvent::End(name) => {
                    let local = local_name_of(name.as_str());
                    if tag_is(&local, "videos") {
                        self.state = ParserReadState::Release;
                    }
                    Ok(StepAct::Stay)
                },
                _ => Ok(StepAct::Stay),
            },
        }
    }

    /// Feeds one event through the machine and the batch sink; the
    /// returned plan holds whatever this event flushed, the release table
    /// before both child tables.
    pub fn process(&mut self, ev: XmlEvent) -> (r: Result<Vec<TableWrite>, LoadError>)
        requires
            old(self).wf(),
        ensures
            final(self).threshold() == old(self).threshold(),
            ({
                let b = old(self).threshold();
                let m0 = release_machine(old(self).history())->Ok_0;
                match r {
                    Ok(writes) => {
                        &&& final(self).wf()
                        &&& final(self).history() == old(self).history().push(ev@)
                        &&& release_machine(final(self).history()) is Ok
                        &&& {
                            let s0 = release_sink(old(self).history(), b);
                            let s1 = release_sink(final(self).history(), b);
                            &&& s0.flushed.is_prefix_of(s1.flushed)
                            &&& child_labels(s0.kids_flushed).is_prefix_of(
                                child_labels(s1.kids_flushed),
                            )
                            &&& child_videos(s0.kids_flushed).is_prefix_of(
                                child_videos(s1.kids_flushed),
                            )
                            &&& writes_view(writes@) == spec_write_releases(
                                s1.flushed.skip(s0.flushed.len() as int),
                                child_labels(s1.kids_flushed).skip(
                                    child_labels(s0.kids_flushed).len() as int,
                                ),
                                child_videos(s1.kids_flushed).skip(
                                    child_videos(s0.kids_flushed).len() as int,
                                ),
                            )
                        }
                    },
                    Err(e) => {
                        &&& *final(self) == *old(self)
                        &&& release_step(m0.state, m0.cur, ev@) is Err
                        &&& e@ == release_step(m0.state, m0.cur, ev@)->Err_0
                    },
                }
            }),
    {
        let ghost evv = ev@;
        let ghost m0 = release_machine(self.hist@)->Ok_0;
        let ghost b = self.batch_size as nat;
        let ghost s0 = sink_run(m0.ops, release_key(), b);
        let act = match self.machine_step(ev) {
            Ok(a) => a,
            Err(e) => {
                return Err(e);
            },
        };
        proof {
            lemma_release_machine_snoc(self.hist@, evv);
        }
        let ghost st = release_step(m0.state, m0.cur, evv)->Ok_0;
        self.hist = Ghost(self.hist@.push(evv));
        match act {
            StepAct::Stay => {
                proof {
                    assert(s0.flushed.skip(s0.flushed.len() as int) =~= Seq::<ReleaseV>::empty());
                    assert(child_labels(s0.kids_flushed).skip(
                        child_labels(s0.kids_flushed).len() as int,
                    ) =~= Seq::<ReleaseLabelV>::empty());
                    assert(child_videos(s0.kids_flushed).skip(
                        child_videos(s0.kids_flushed).len() as int,
                    ) =~= Seq::<ReleaseVideoV>::empty());
                    assert(spec_write_releases(
                        Seq::<ReleaseV>::empty(),
                        Seq::<ReleaseLabelV>::empty(),
                        Seq::<ReleaseVideoV>::empty(),
                    ) =~= Seq::<TableWriteV>::empty());
                }
                Ok(no_writes())
            },
            StepAct::CommitLabel(l) => {
                proof {
                    lemma_sink_run_snoc(
                        m0.ops,
                        SinkOp::Child(ReleaseChildV::Lab(l@)),
                        release_key(),
                        b,
                    );
                }
                self.release_labels.push(l);
                proof {
                    let s1 = release_sink(self.hist@, b);
                    assert(s1.kids_pending.drop_last() =~= s0.kids_pending);
                    assert(recs_view(self.release_labels@) =~= recs_view(
                        old(self).release_labels@,
                    ).push(s1.kids_pending.last()->Lab_0));
                    assert(recs_view(self.release_videos@) == child_videos(s1.kids_pending));
                    assert(s0.flushed.skip(s0.flushed.len() as int) =~= Seq::<ReleaseV>::empty());
                    assert(child_labels(s0.kids_flushed).skip(
                        child_labels(s0.kids_flushed).len() as int,
                    ) =~= Seq::<ReleaseLabelV>::empty());
                    assert(child_videos(s0.kids_flushed).skip(
                        child_videos(s0.kids_flushed).len() as int,
                    ) =~= Seq::<ReleaseVideoV>::empty());
                    assert(spec_write_releases(
                        Seq::<ReleaseV>::empty(),
                        Seq::<ReleaseLabelV>::empty(),
                        Seq::<ReleaseVideoV>::empty(),
                    ) =~= Seq::<TableWriteV>::empty());
                }
                Ok(no_writes())
            },
            StepAct::CommitVideo(v) => {
                proof {
                    lemma_sink_run_snoc(
                        m0.ops,
                        SinkOp::Child(ReleaseChildV::Vid(v@)),
                        release_key(),
                        b,
                    );
                }
                self.release_videos.push(v);
                proof {
                    let s1 = release_sink(self.hist@, b);
                    assert(s1.kids_pending.drop_last() =~= s0.kids_pending);
                    assert(recs_view(self.release_videos@) =~= recs_view(
                        old(self).release_videos@,
                    ).push(s1.kids_pending.last()->Vid_0));
                    assert(recs_view(self.release_labels@) == child_labels(s1.kids_pending));
                    assert(s0.flushed.skip(s0.flushed.len() as int) =~= Seq::<ReleaseV>::empty());
                    assert(child_labels(s0.kids_flushed).skip(
                        child_labels(s0.kids_flushed).len() as int,
                    ) =~= Seq::<ReleaseLabelV>::empty());
                    assert(child_videos(s0.kids_flushed).skip(
                        child_videos(s0.kids_flushed).len() as int,
                    ) =~= Seq::<ReleaseVideoV>::empty());
                    assert(spec_write_releases(
                        Seq::<ReleaseV>::empty(),
                        Seq::<ReleaseLabelV>::empty(),
                        Seq::<ReleaseVideoV>::empty(),
                    ) =~= Seq::<TableWriteV>::empty());
                }
                Ok(no_writes())
            },
            StepAct::Commit => {
                let k = self.current_release.id;
                let rec = self.current_release.clone();
                proof {
                    lemma_sink_run_snoc(m0.ops, SinkOp::Parent(st.cur), release_key(), b);
                    lemma_batch_keys_push(s0.batch, release_key(), st.cur);
                    if self.releases.keys().contains(k) {
                        assert(batch_keys(s0.batch, release_key()).insert(k) =~= batch_keys(
                            s0.batch,
                            release_key(),
                        ));
                    }
                }
                self.releases.commit(k, rec);
                if self.releases.len() >= self.batch_size {
                    let rows = self.releases.take();
                    let mut labs: Vec<ReleaseLabel> = Vec::new();
                    core::mem::swap(&mut labs, &mut self.release_labels);
                    let mut vids: Vec<ReleaseVideo> = Vec::new();
                    core::mem::swap(&mut vids, &mut self.release_videos);
                    let w = write_releases(&rows, &labs, &vids);
                    proof {
                        let s1 = release_sink(self.hist@, b);
                        lemma_batch_keys_empty(release_key());
                        lemma_children_concat(s0.kids_flushed, s0.kids_pending);
                        assert(recs_view(self.release_labels@) =~= Seq::<ReleaseLabelV>::empty());
                        assert(recs_view(self.release_videos@) =~= Seq::<ReleaseVideoV>::empty());
                        assert(s1.flushed.skip(s0.flushed.len() as int) =~= recs_view(rows@));
                        assert(child_labels(s1.kids_flushed).skip(
                            child_labels(s0.kids_flushed).len() as int,
                        ) =~= recs_view(labs@));
                        assert(child_videos(s1.kids_flushed).skip(
                            child_videos(s0.kids_flushed).len() as int,
                        ) =~= recs_view(vids@));
                    }
                    Ok(w)
                } else {
                    proof {
                        let s1 = release_sink(self.hist@, b);
                        assert(s1.flushed.skip(s0.flushed.len() as int) =~= Seq::<
                            ReleaseV,
                        >::empty());
                        assert(child_labels(s0.kids_flushed).skip(
                            child_labels(s0.kids_flushed).len() as int,
                        ) =~= Seq::<ReleaseLabelV>::empty());
                        assert(child_videos(s0.kids_flushed).skip(
                            child_videos(s0.kids_flushed).len() as int,
                        ) =~= Seq::<ReleaseVideoV>::empty());
                        assert(spec_write_releases(
                            Seq::<ReleaseV>::empty(),
                            Seq::<ReleaseLabelV>::empty(),
                            Seq::<ReleaseVideoV>::empty(),
                        ) =~= Seq::<TableWriteV>::empty());
                    }
                    Ok(no_writes())
                }
            },
            StepAct::Close => {
                let rows = self.releases.take();
                let mut labs: Vec<ReleaseLabel> = Vec::new();
                core::mem::swap(&mut labs, &mut self.release_labels);
                let mut vids: Vec<ReleaseVideo> = Vec::new();
                core::mem::swap(&mut vids, &mut self.release_videos);
                let w = write_releases(&rows, &labs, &vids);
                proof {
                    lemma_sink_run_snoc(m0.ops, SinkOp::Close, release_key(), b);
                    lemma_batch_keys_empty(release_key());
                    lemma_children_concat(s0.kids_flushed, s0.kids_pending);
                    let s1 = release_sink(self.hist@, b);
                    assert(recs_view(self.release_labels@) =~= Seq::<ReleaseLabelV>::empty());
                    assert(recs_view(self.release_videos@) =~= Seq::<ReleaseVideoV>::empty());
                    assert(s1.flushed.skip(s0.flushed.len() as int) =~= recs_view(rows@));
                    assert(child_labels(s1.kids_flushed).skip(
                        child_labels(s0.kids_flushed).len() as int,
                    ) =~= recs_view(labs@));
                    assert(child_videos(s1.kids_flushed).skip(
                        child_videos(s0.kids_flushed).len() as int,
                    ) =~= recs_view(vids@));
                }
                Ok(w)
            },
        }
    }
}

/// Parser purity: two release parsers that saw the same events have
/// committed exactly the same release records and child rows, whatever
/// their batch sizes.
pub proof fn lemma_releases_purity(p1: &ReleasesParser, p2: &ReleasesParser)
    requires
        p1.wf(),
        p2.wf(),
        p1.history() == p2.history(),
    ensures
        release_sink(p1.history(), p1.threshold()).committed == release_sink(
            p2.history(),
            p2.threshold(),
        ).committed,
        release_sink(p1.history(), p1.threshold()).kids_committed == release_sink(
            p2.history(),
            p2.threshold(),
        ).kids_committed,
{
    lemma_purity(
        release_machine(p1.history())->Ok_0.ops,
        release_key(),
        p1.threshold(),
        p2.threshold(),
    );
}

/// First write wins: when two records of the current batch were committed
/// under one id, the pending rows hold the first of them and no other row
/// with that id — the later duplicate was silently dropped.
pub proof fn lemma_releases_first_write_wins(p: &ReleasesParser, i: int, j: int)
    requires
        p.wf(),
        0 <= i < j < release_sink(p.history(), p.threshold()).batch.len(),
        release_sink(p.history(), p.threshold()).batch[j].id == release_sink(
            p.history(),
            p.threshold(),
        ).batch[i].id,
        forall|m: int|
            0 <= m < i ==> (#[trigger] release_sink(p.history(), p.threshold()).batch[m]).id
                != release_sink(p.history(), p.threshold()).batch[i].id,
    ensures
        p.pending_rows().contains(release_sink(p.history(), p.threshold()).batch[i]),
        forall|q: ReleaseV|
            p.pending_rows().contains(q) && q.id == release_sink(
                p.history(),
                p.threshold(),
            ).batch[i].id ==> q == release_sink(p.history(), p.threshold()).batch[i],
{
    lemma_sink_run_faithful(release_machine(p.history())->Ok_0.ops, release_key(), p.threshold());
    lemma_first_write_wins(
        release_sink(p.history(), p.threshold()).batch,
        release_key(),
        i,
        j,
    );
}

/// The parent key a release child row carries: the release it belongs to.
pub open spec fn release_child_key() -> spec_fn(ReleaseChildV) -> i32 {
    |c: ReleaseChildV| match c {
        ReleaseChildV::Lab(l) => l.release_id,
        ReleaseChildV::Vid(v) => v.release_id,
    }
}

/// Child–parent locality: when the parser's commits are record-scoped —
/// every label or video credit committed between its release's opening
/// tag and the parent commit at the closing tag, as a well-nested dump
/// produces them — every child row handed to the bulk writer carries the
/// id of a release committed no later than that child's flush; and each
/// flush writes the release table before either child table.
pub proof fn lemma_releases_child_parent_locality(p: &ReleasesParser)
    requires
        p.wf(),
        scoped(release_machine(p.history())->Ok_0.ops, release_key(), release_child_key()),
    ensures
        ({
            let s = release_sink(p.history(), p.threshold());
            forall|idx: int|
                0 <= idx < s.kids_flushed.len() ==> has_key(
                    s.committed,
                    release_key(),
                    release_child_key()(#[trigger] s.kids_flushed[idx]),
                )
        }),
{
    lemma_child_parent_locality(
        release_machine(p.history())->Ok_0.ops,
        release_key(),
        release_child_key(),
        p.threshold(),
    );
}

/// Round-trip of an empty record: a release element with no nested field
/// elements commits with its id and status read from the attributes and
/// every other column at its default — empty strings, zero integers,
/// empty arrays.
pub proof fn lemma_release_empty_record_defaults(
    evs: Seq<EventV>,
    sname: Seq<char>,
    sattrs: Seq<Seq<char>>,
    ename: Seq<char>,
)
    requires
        release_machine(evs) is Ok,
        release_machine(evs)->Ok_0.state is Release,
        spec_local_name(sname) == "release"@,
        spec_local_name(ename) == "release"@,
        sattrs.len() >= 2,
        spec_text_value(sattrs[1]) is Ok,
        spec_int_value(sattrs[0], "release.id"@) is Ok,
    ensures
        ({
            let evs2 = evs.push(EventV::Start { name: sname, attrs: sattrs }).push(
                EventV::End { name: ename },
            );
            &&& release_machine(evs2) is Ok
            &&& release_machine(evs2)->Ok_0.ops == release_machine(evs)->Ok_0.ops.push(
                SinkOp::Parent(
                    ReleaseV {
                        id: spec_int_value(sattrs[0], "release.id"@)->Ok_0,
                        status: spec_text_value(sattrs[1])->Ok_0,
                        ..release_default()
                    },
                ),
            )
        }),
{
    let ev1 = EventV::Start { name: sname, attrs: sattrs };
    let ev2 = EventV::End { name: ename };
    lemma_release_machine_snoc(evs, ev1);
    lemma_release_machine_snoc(evs.push(ev1), ev2);
}

/// Batching faithfulness: every release row the sink accepted, and every
/// child row committed, has either been handed to the bulk writer or is
/// still pending.
pub proof fn lemma_releases_batching_faithful(p: &ReleasesParser)
    requires
        p.wf(),
    ensures
        release_sink(p.history(), p.threshold()).accepted == release_sink(
            p.history(),
            p.threshold(),
        ).flushed + p.pending_rows(),
        release_sink(p.history(), p.threshold()).kids_committed == release_sink(
            p.history(),
            p.threshold(),
        ).kids_flushed + release_sink(p.history(), p.threshold()).kids_pending,
{
    lemma_sink_run_faithful(release_machine(p.history())->Ok_0.ops, release_key(), p.threshold());
}

} // verus!
