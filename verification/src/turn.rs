//! Folding one streamed LLM turn into a single response: thinking, text and
//! tool-call blocks are accumulated per stream index from their start and
//! delta events, closed on their stop event, and emitted in the order their
//! indices first appeared, with the final stop reason and usage.

use vstd::prelude::*;
use crate::text;
use crate::pricing::Usage;

verus! {

#[verifier::external_type_specification]
#[verifier::external_body]
pub struct ExJsonValue(serde_json::Value);

/// How a content block opens.
#[derive(Debug, Clone)]
pub enum BlockStart {
    Text { text: String },
    Thinking { thinking: String },
    ToolUse { id: String, name: String },
    /// A server-side tool: not produced by this path, dropped.
    ServerToolUse,
}

/// A piece of an open block.
#[derive(Debug, Clone)]
pub enum Delta {
    Text { text: String },
    Thinking { thinking: String },
    InputJson { partial_json: String },
}

/// The events of a streamed turn.
#[derive(Debug, Clone)]
pub enum StreamEvent {
    MessageStart { id: String, role: String },
    BlockStart { index: u32, block: BlockStart },
    BlockDelta { index: u32, delta: Delta },
    BlockStop { index: u32 },
    MessageDelta { stop_reason: Option<String>, stop_sequence: Option<String>, usage: Option<Usage> },
    MessageStop,
    Ping,
}

/// A block being accumulated.
#[derive(Debug)]
pub enum Acc {
    Text(String),
    Thinking(String),
    /// A tool call and its concatenated argument fragments.
    Tool { id: String, name: String, json: String },
}

/// A finished content block. A tool call keeps its raw arguments and their
/// parse (`{}` when blank, the raw text as a JSON string when invalid).
#[derive(Debug)]
pub enum Block {
    Text { text: String },
    Thinking { thinking: String },
    ToolUse { id: String, name: String, input_json: String, input: serde_json::Value },
}

/// An accumulator or a block, as text.
pub enum Part {
    Text(Seq<char>),
    Thinking(Seq<char>),
    Tool(Seq<char>, Seq<char>, Seq<char>),
}

pub open spec fn acc_part(a: Acc) -> Part {
    match a {
        Acc::Text(t) => Part::Text(t@),
        Acc::Thinking(t) => Part::Thinking(t@),
        Acc::Tool { id, name, json } => Part::Tool(id@, name@, json@),
    }
}

pub open spec fn block_part(b: Block) -> Part {
    match b {
        Block::Text { text } => Part::Text(text@),
        Block::Thinking { thinking } => Part::Thinking(thinking@),
        Block::ToolUse { id, name, input_json, .. } => Part::Tool(id@, name@, input_json@),
    }
}

pub open spec fn open_parts(v: Seq<(u32, Acc)>) -> Seq<(u32, Part)> {
    v.map_values(|p: (u32, Acc)| (p.0, acc_part(p.1)))
}

pub open spec fn done_parts(v: Seq<(u32, Block)>) -> Seq<(u32, Part)> {
    v.map_values(|p: (u32, Block)| (p.0, block_part(p.1)))
}

/// The accumulator a start opens (`None` for a server-side tool).
pub open spec fn started(b: BlockStart) -> Option<Part> {
    match b {
        BlockStart::Text { text } => Some(Part::Text(text@)),
        BlockStart::Thinking { thinking } => Some(Part::Thinking(thinking@)),
        BlockStart::ToolUse { id, name } => Some(Part::Tool(id@, name@, Seq::<char>::empty())),
        BlockStart::ServerToolUse => None,
    }
}

/// A delta appends to an accumulator of its own kind; any other is ignored.
pub open spec fn with_delta(a: Part, d: Delta) -> Part {
    match (a, d) {
        (Part::Text(t), Delta::Text { text }) => Part::Text(t + text@),
        (Part::Thinking(t), Delta::Thinking { thinking }) => Part::Thinking(t + thinking@),
        (Part::Tool(i, n, j), Delta::InputJson { partial_json }) => Part::Tool(i, n, j + partial_json@),
        _ => a,
    }
}

/// The block an accumulator closes into: empty text and thinking vanish.
pub open spec fn closed(a: Part) -> Option<Part> {
    match a {
        Part::Text(t) => if t.len() == 0 {
            None
        } else {
            Some(a)
        },
        Part::Thinking(t) => if t.len() == 0 {
            None
        } else {
            Some(a)
        },
        Part::Tool(..) => Some(a),
    }
}

pub open spec fn has_key(v: Seq<(u32, Part)>, k: u32) -> bool {
    exists|i: int| 0 <= i < v.len() && (#[trigger] v[i]).0 == k
}

/// The position of key `k` (its first occurrence), `v.len()` when absent.
pub open spec fn pos(v: Seq<(u32, Part)>, k: u32) -> int
    decreases v.len(),
{
    if v.len() == 0 {
        0
    } else if v[0].0 == k {
        0
    } else {
        1 + pos(v.drop_first(), k)
    }
}

/// Sets key `k` to `x`: in place when present, appended otherwise.
pub open spec fn put(v: Seq<(u32, Part)>, k: u32, x: Part) -> Seq<(u32, Part)> {
    if has_key(v, k) {
        v.update(pos(v, k), (k, x))
    } else {
        v.push((k, x))
    }
}

pub open spec fn unique_keys(v: Seq<(u32, Part)>) -> bool {
    forall|i: int, j: int| 0 <= i < j < v.len() ==> (#[trigger] v[i]).0 != (#[trigger] v[j]).0
}

/// The fold's state, as text.
pub struct FoldView {
    pub id: Seq<char>,
    pub role: Seq<char>,
    pub stop_reason: Option<Seq<char>>,
    pub stop_sequence: Option<Seq<char>>,
    pub usage: Usage,
    pub open: Seq<(u32, Part)>,
    pub order: Seq<u32>,
    pub finished: Seq<(u32, Part)>,
}

pub open spec fn opt_seq(o: Option<String>) -> Option<Seq<char>> {
    match o {
        Some(s) => Some(s@),
        None => None,
    }
}

/// What one event does to the fold's state.
pub open spec fn folded(a: FoldView, ev: StreamEvent) -> FoldView {
    match ev {
        StreamEvent::MessageStart { id, role } => FoldView {
            id: if id@.len() > 0 {
                id@
            } else {
                a.id
            },
            role: role@,
            ..a
        },
        StreamEvent::BlockStart { index, block } => match started(block) {
            Some(p) => FoldView {
                order: if !has_key(a.open, index) && !has_key(a.finished, index) {
                    a.order.push(index)
                } else {
                    a.order
                },
                open: put(a.open, index, p),
                ..a
            },
            None => a,
        },
        StreamEvent::BlockDelta { index, delta } => if has_key(a.open, index) {
            let i = pos(a.open, index);
            FoldView { open: a.open.update(i, (index, with_delta(a.open[i].1, delta))), ..a }
        } else {
            a
        },
        StreamEvent::BlockStop { index } => if has_key(a.open, index) {
            let i = pos(a.open, index);
            FoldView {
                open: a.open.remove(i),
                finished: match closed(a.open[i].1) {
                    Some(b) => put(a.finished, index, b),
                    None => a.finished,
                },
                ..a
            }
        } else {
            a
        },
        StreamEvent::MessageDelta { stop_reason, stop_sequence, usage } => FoldView {
            stop_reason: if stop_reason is Some {
                opt_seq(stop_reason)
            } else {
                a.stop_reason
            },
            stop_sequence: if stop_sequence is Some {
                opt_seq(stop_sequence)
            } else {
                a.stop_sequence
            },
            usage: match usage {
                Some(u) => u,
                None => a.usage,
            },
            ..a
        },
        StreamEvent::MessageStop => a,
        StreamEvent::Ping => a,
    }
}

/// Blocks still open at the end are closed, without replacing a block
/// already finished under the same index.
pub open spec fn drained(fin: Seq<(u32, Part)>, open: Seq<(u32, Part)>) -> Seq<(u32, Part)>
    decreases open.len(),
{
    if open.len() == 0 {
        fin
    } else {
        let (k, a) = open[0];
        let fin2 = match closed(a) {
            Some(b) => if has_key(fin, k) {
                fin
            } else {
                fin.push((k, b))
            },
            None => fin,
        };
        drained(fin2, open.drop_first())
    }
}

/// The blocks in the order their indices first appeared (each once).
pub open spec fn emitted(order: Seq<u32>, fin: Seq<(u32, Part)>) -> Seq<Part>
    decreases order.len(),
{
    if order.len() == 0 {
        Seq::empty()
    } else {
        let k = order[0];
        if has_key(fin, k) {
            let i = pos(fin, k);
            seq![fin[i].1] + emitted(order.drop_first(), fin.remove(i))
        } else {
            emitted(order.drop_first(), fin)
        }
    }
}

/// A folded turn.
#[derive(Debug)]
pub struct TurnResponse {
    pub id: String,
    pub role: String,
    pub content: Vec<Block>,
    pub model: String,
    pub stop_reason: Option<String>,
    pub stop_sequence: Option<String>,
    pub usage: Usage,
}

/// The state of the fold over a turn's events.
pub struct TurnFold {
    pub id: String,
    pub role: String,
    pub stop_reason: Option<String>,
    pub stop_sequence: Option<String>,
    pub usage: Usage,
    pub open: Vec<(u32, Acc)>,
    pub order: Vec<u32>,
    pub finished: Vec<(u32, Block)>,
}

pub open spec fn fold_view(f: TurnFold) -> FoldView {
    FoldView {
        id: f.id@,
        role: f.role@,
        stop_reason: opt_seq(f.stop_reason),
        stop_sequence: opt_seq(f.stop_sequence),
        usage: f.usage,
        open: open_parts(f.open@),
        order: f.order@,
        finished: done_parts(f.finished@),
    }
}

/// Each index is open at most once and finished at most once.
pub open spec fn fold_ok(v: FoldView) -> bool {
    unique_keys(v.open) && unique_keys(v.finished)
}

/// An empty text block (a JSON object, `{}`).
#[verifier::external_body]
fn empty_object() -> (r: serde_json::Value) {
    serde_json::Value::Object(serde_json::Map::new())
}

/// `serde_json::from_str` on a tool call's arguments; the raw text as a JSON
/// string when they are not valid JSON. Nothing is stated of the value.
#[verifier::external_body]
fn parse_arguments(raw: &String) -> (r: serde_json::Value) {
    serde_json::from_str(raw).unwrap_or_else(|_| serde_json::Value::String(raw.clone()))
}

fn close(a: Acc) -> (r: Option<Block>)
    ensures
        match r {
            Some(b) => closed(acc_part(a)) == Some(block_part(b)),
            None => closed(acc_part(a)) is None,
        },
{
    match a {
        Acc::Text(t) => if t.as_str().unicode_len() == 0 {
            None
        } else {
            Some(Block::Text { text: t })
        },
        Acc::Thinking(t) => if t.as_str().unicode_len() == 0 {
            None
        } else {
            Some(Block::Thinking { thinking: t })
        },
        Acc::Tool { id, name, json } => {
            let blank = text::trim_str(json.as_str());
            let input = if blank.as_str().unicode_len() == 0 {
                empty_object()
            } else {
                parse_arguments(&json)
            };
            Some(Block::ToolUse { id, name, input_json: json, input })
        },
    }
}

proof fn lemma_pos(v: Seq<(u32, Part)>, k: u32)
    ensures
        0 <= pos(v, k) <= v.len(),
        has_key(v, k) <==> pos(v, k) < v.len(),
        pos(v, k) < v.len() ==> v[pos(v, k)].0 == k,
        forall|j: int| 0 <= j < pos(v, k) ==> v[j].0 != k,
    decreases v.len(),
{
    if v.len() > 0 && v[0].0 != k {
        let t = v.drop_first();
        lemma_pos(t, k);
        assert forall|j: int| 0 <= j < pos(v, k) implies v[j].0 != k by {
            if j > 0 {
                assert(v[j] == t[j - 1]);
            }
        }
        if has_key(v, k) {
            let w = choose|i: int| 0 <= i < v.len() && (#[trigger] v[i]).0 == k;
            assert(t[w - 1] == v[w]);
        }
        if pos(t, k) < t.len() {
            assert(t[pos(t, k)] == v[pos(v, k)]);
        }
    } else if v.len() > 0 {
        assert(v[0].0 == k);
    }
}

/// The position of key `k` in `v`, if present.
fn find<A>(v: &Vec<(u32, A)>, k: u32, Ghost(parts): Ghost<Seq<(u32, Part)>>) -> (r: Option<usize>)
    requires
        parts.len() == v@.len(),
        forall|i: int| 0 <= i < v@.len() ==> (#[trigger] parts[i]).0 == v@[i].0,
    ensures
        match r {
            Some(i) => has_key(parts, k) && i as int == pos(parts, k) && i < v@.len() && parts[i as int].0
                == k,
            None => !has_key(parts, k),
        },
{
    proof {
        lemma_pos(parts, k);
    }
    let mut i: usize = 0;
    while i < v.len()
        invariant
            i <= v@.len(),
            parts.len() == v@.len(),
            forall|j: int| 0 <= j < v@.len() ==> (#[trigger] parts[j]).0 == v@[j].0,
            forall|j: int| 0 <= j < i ==> parts[j].0 != k,
            0 <= pos(parts, k) <= parts.len(),
            has_key(parts, k) <==> pos(parts, k) < parts.len(),
            pos(parts, k) < parts.len() ==> parts[pos(parts, k)].0 == k,
            forall|j: int| 0 <= j < pos(parts, k) ==> parts[j].0 != k,
        decreases v@.len() - i,
    {
        if v[i].0 == k {
            assert(parts[i as int].0 == k);
            return Some(i);
        }
        i = i + 1;
    }
    None
}

proof fn lemma_put_unique(v: Seq<(u32, Part)>, k: u32, x: Part)
    requires
        unique_keys(v),
    ensures
        unique_keys(put(v, k, x)),
        forall|q: u32| has_key(put(v, k, x), q) <==> (has_key(v, q) || q == k),
{
    lemma_pos(v, k);
    let w = put(v, k, x);
    assert forall|q: u32| has_key(w, q) <==> (has_key(v, q) || q == k) by {
        if has_key(v, q) {
            let i = choose|i: int| 0 <= i < v.len() && (#[trigger] v[i]).0 == q;
            assert(w[i].0 == q);
        }
        if q == k {
            if has_key(v, k) {
                assert(w[pos(v, k)].0 == k);
            } else {
                assert(w[v.len() as int].0 == k);
            }
        }
        if has_key(w, q) {
            let i = choose|i: int| 0 <= i < w.len() && (#[trigger] w[i]).0 == q;
            if i < v.len() && q != k {
                assert(v[i].0 == q);
            }
        }
    }
}

proof fn lemma_remove_unique(v: Seq<(u32, Part)>, i: int)
    requires
        unique_keys(v),
        0 <= i < v.len(),
    ensures
        unique_keys(v.remove(i)),
        !has_key(v.remove(i), v[i].0),
{
    let w = v.remove(i);
    assert forall|a: int, b: int| 0 <= a < b < w.len() implies (#[trigger] w[a]).0 != (#[trigger] w[b]).0 by {
        let a2 = if a < i { a } else { a + 1 };
        let b2 = if b < i { b } else { b + 1 };
        assert(w[a] == v[a2] && w[b] == v[b2]);
    }
    if has_key(w, v[i].0) {
        let j = choose|j: int| 0 <= j < w.len() && (#[trigger] w[j]).0 == v[i].0;
        let j2 = if j < i { j } else { j + 1 };
        assert(w[j] == v[j2]);
    }
}

proof fn lemma_update_keys(v: Seq<(u32, Part)>, i: int, x: Part)
    requires
        unique_keys(v),
        0 <= i < v.len(),
    ensures
        unique_keys(v.update(i, (v[i].0, x))),
{
    let w = v.update(i, (v[i].0, x));
    assert forall|a: int, b: int| 0 <= a < b < w.len() implies (#[trigger] w[a]).0 != (#[trigger] w[b]).0 by {
        assert(w[a].0 == v[a].0 && w[b].0 == v[b].0);
    }
}

impl TurnFold {
    /// A fold that has seen nothing yet (role `assistant`).
    pub fn new() -> (r: Self)
        ensures
            fold_view(r).id == Seq::<char>::empty(),
            fold_view(r).role == "assistant"@,
            fold_view(r).stop_reason is None && fold_view(r).stop_sequence is None,
            fold_view(r).usage == crate::pricing::no_usage(),
            fold_view(r).open.len() == 0 && fold_view(r).order.len() == 0 && fold_view(r).finished.len() == 0,
            fold_view(r) == initial_view(),
    {
        let mut role = String::new();
        text::push_str(&mut role, "assistant");
        let r = TurnFold {
            id: String::new(),
            role,
            stop_reason: None,
            stop_sequence: None,
            usage: Usage::zero(),
            open: Vec::new(),
            order: Vec::new(),
            finished: Vec::new(),
        };
        assert(fold_view(r).open =~= Seq::<(u32, Part)>::empty());
        assert(fold_view(r).finished =~= Seq::<(u32, Part)>::empty());
        assert(fold_view(r).order =~= Seq::<u32>::empty());
        r
    }

    fn start_block(&mut self, index: u32, block: BlockStart)
        requires
            fold_ok(fold_view(*old(self))),
        ensures
            fold_view(*final(self)) == folded(fold_view(*old(self)), StreamEvent::BlockStart { index, block }),
            fold_ok(fold_view(*final(self))),
    {
        let ghost before = fold_view(*self);
        let ghost p = started(block);
        let acc = match block {
            BlockStart::Text { text } => Acc::Text(text),
            BlockStart::Thinking { thinking } => Acc::Thinking(thinking),
            BlockStart::ToolUse { id, name } => Acc::Tool { id, name, json: String::new() },
            BlockStart::ServerToolUse => {
                return;
            },
        };
        assert(Some(acc_part(acc)) == p);
        let in_open = find(&self.open, index, Ghost(before.open));
        let in_done = find(&self.finished, index, Ghost(before.finished));
        if in_open.is_none() && in_done.is_none() {
            self.order.push(index);
        }
        proof {
            lemma_put_unique(before.open, index, acc_part(acc));
        }
        match in_open {
            Some(i) => {
                self.open.set(i, (index, acc));
                assert(open_parts(self.open@) =~= put(before.open, index, p->0));
            },
            None => {
                self.open.push((index, acc));
                assert(open_parts(self.open@) =~= put(before.open, index, p->0));
            },
        }
    }

    fn apply_delta(&mut self, index: u32, delta: Delta)
        requires
            fold_ok(fold_view(*old(self))),
        ensures
            fold_view(*final(self)) == folded(fold_view(*old(self)), StreamEvent::BlockDelta { index, delta }),
            fold_ok(fold_view(*final(self))),
    {
        let ghost before = fold_view(*self);
        match find(&self.open, index, Ghost(before.open)) {
            Some(i) => {
                let ghost d = delta;
                let (k, acc) = self.open.remove(i);
                let acc2 = match (acc, delta) {
                    (Acc::Text(mut t), Delta::Text { text }) => {
                        text::push_str(&mut t, text.as_str());
                        Acc::Text(t)
                    },
                    (Acc::Thinking(mut t), Delta::Thinking { thinking }) => {
                        text::push_str(&mut t, thinking.as_str());
                        Acc::Thinking(t)
                    },
                    (Acc::Tool { id, name, mut json }, Delta::InputJson { partial_json }) => {
                        text::push_str(&mut json, partial_json.as_str());
                        Acc::Tool { id, name, json }
                    },
                    (a, _) => a,
                };
                assert(acc_part(acc2) == with_delta(before.open[i as int].1, d));
                self.open.insert(i, (k, acc2));
                proof {
                    lemma_update_keys(before.open, i as int, acc_part(acc2));
                }
                assert(open_parts(self.open@) =~= before.open.update(
                    i as int,
                    (index, with_delta(before.open[i as int].1, d)),
                ));
            },
            None => {},
        }
    }

    fn stop_block(&mut self, index: u32)
        requires
            fold_ok(fold_view(*old(self))),
        ensures
            fold_view(*final(self)) == folded(fold_view(*old(self)), StreamEvent::BlockStop { index }),
            fold_ok(fold_view(*final(self))),
    {
        let ghost before = fold_view(*self);
        match find(&self.open, index, Ghost(before.open)) {
            Some(i) => {
                let (_, acc) = self.open.remove(i);
                let ghost part = acc_part(acc);
                assert(open_parts(self.open@) =~= before.open.remove(i as int));
                proof {
                    lemma_remove_unique(before.open, i as int);
                }
                match close(acc) {
                    Some(b) => {
                        let ghost bp = block_part(b);
                        proof {
                            lemma_put_unique(before.finished, index, bp);
                        }
                        match find(&self.finished, index, Ghost(before.finished)) {
                            Some(j) => {
                                self.finished.set(j, (index, b));
                            },
                            None => {
                                self.finished.push((index, b));
                            },
                        }
                        assert(done_parts(self.finished@) =~= put(before.finished, index, bp));
                    },
                    None => {},
                }
            },
            None => {},
        }
    }

    /// Takes in one event. Returns true on `MessageStop`: the turn is over.
    pub fn push(&mut self, ev: StreamEvent) -> (stop: bool)
        requires
            fold_ok(fold_view(*old(self))),
        ensures
            fold_view(*final(self)) == folded(fold_view(*old(self)), ev),
            fold_ok(fold_view(*final(self))),
            stop == ev is MessageStop,
    {
        match ev {
            StreamEvent::MessageStart { id, role } => {
                if id.as_str().unicode_len() > 0 {
                    self.id = id;
                }
                self.role = role;
                false
            },
            StreamEvent::BlockStart { index, block } => {
                self.start_block(index, block);
                false
            },
            StreamEvent::BlockDelta { index, delta } => {
                self.apply_delta(index, delta);
                false
            },
            StreamEvent::BlockStop { index } => {
                self.stop_block(index);
                false
            },
            StreamEvent::MessageDelta { stop_reason, stop_sequence, usage } => {
                if stop_reason.is_some() {
                    self.stop_reason = stop_reason;
                }
                if stop_sequence.is_some() {
                    self.stop_sequence = stop_sequence;
                }
                match usage {
                    Some(u) => {
                        self.usage = u;
                    },
                    None => {},
                }
                false
            },
            StreamEvent::MessageStop => true,
            StreamEvent::Ping => false,
        }
    }
}


pub open spec fn block_parts(v: Seq<Block>) -> Seq<Part> {
    v.map_values(|b: Block| block_part(b))
}

impl TurnFold {
    /// Closes what the stream left open and returns the turn: its blocks in
    /// the order their indices first appeared, the last stop reason and
    /// sequence, and the last usage reported.
    pub fn finish(self, model: String) -> (r: TurnResponse)
        ensures
            block_parts(r.content@) == emitted(
                fold_view(self).order,
                drained(fold_view(self).finished, fold_view(self).open),
            ),
            r.id@ == fold_view(self).id,
            r.role@ == fold_view(self).role,
            r.model == model,
            opt_seq(r.stop_reason) == fold_view(self).stop_reason,
            opt_seq(r.stop_sequence) == fold_view(self).stop_sequence,
            r.usage == self.usage,
    {
        let ghost v = fold_view(self);
        let TurnFold { id, role, stop_reason, stop_sequence, usage, open, order, finished } = self;
        let mut open = open;
        let mut finished = finished;
        let ghost all = drained(v.finished, v.open);
        while open.len() > 0
            invariant
                drained(done_parts(finished@), open_parts(open@)) == all,
            decreases open@.len(),
        {
            let ghost fin0 = done_parts(finished@);
            let ghost open0 = open_parts(open@);
            let (k, acc) = open.remove(0);
            assert(open_parts(open@) =~= open0.drop_first());
            match close(acc) {
                Some(b) => {
                    match find(&finished, k, Ghost(fin0)) {
                        Some(_) => {},
                        None => {
                            finished.push((k, b));
                            assert(done_parts(finished@) =~= fin0.push((k, block_part(b))));
                        },
                    }
                },
                None => {},
            }
        }
        assert(open_parts(open@) =~= Seq::<(u32, Part)>::empty());
        assert(done_parts(finished@) == all);
        let mut content: Vec<Block> = Vec::new();
        assert(order@.skip(0) =~= order@);
        assert(block_parts(content@) =~= Seq::<Part>::empty());
        assert(Seq::<Part>::empty() + emitted(order@, all) =~= emitted(order@, all));
        let mut i: usize = 0;
        while i < order.len()
            invariant
                i <= order@.len(),
                order@ == v.order,
                block_parts(content@) + emitted(order@.skip(i as int), done_parts(finished@))
                    == emitted(v.order, all),
            decreases order@.len() - i,
        {
            let k = order[i];
            let ghost fin0 = done_parts(finished@);
            let ghost c0 = block_parts(content@);
            let ghost rest = order@.skip(i as int);
            assert(rest[0] == k);
            assert(rest.drop_first() =~= order@.skip(i + 1));
            match find(&finished, k, Ghost(fin0)) {
                Some(j) => {
                    let (_, b) = finished.remove(j);
                    assert(done_parts(finished@) =~= fin0.remove(j as int));
                    content.push(b);
                    assert(block_parts(content@) =~= c0.push(fin0[j as int].1));
                    assert(c0.push(fin0[j as int].1) + emitted(order@.skip(i + 1), done_parts(finished@))
                        =~= c0 + (seq![fin0[j as int].1] + emitted(order@.skip(i + 1), done_parts(finished@))));
                },
                None => {},
            }
            i = i + 1;
        }
        assert(order@.skip(order@.len() as int) =~= Seq::<u32>::empty());
        assert(block_parts(content@) + Seq::<Part>::empty() =~= block_parts(content@));
        TurnResponse { id, role, content, model, stop_reason, stop_sequence, usage }
    }
}

/// The fold's state before any event.
pub open spec fn initial_view() -> FoldView {
    FoldView {
        id: Seq::<char>::empty(),
        role: "assistant"@,
        stop_reason: None,
        stop_sequence: None,
        usage: crate::pricing::no_usage(),
        open: Seq::<(u32, Part)>::empty(),
        order: Seq::<u32>::empty(),
        finished: Seq::<(u32, Part)>::empty(),
    }
}

/// The state after the events up to the first `MessageStop`.
pub open spec fn fold_all(a: FoldView, evs: Seq<StreamEvent>) -> FoldView
    decreases evs.len(),
{
    if evs.len() == 0 || evs[0] is MessageStop {
        a
    } else {
        fold_all(folded(a, evs[0]), evs.drop_first())
    }
}

/// The blocks of a turn made of `evs`.
pub open spec fn turn_content(evs: Seq<StreamEvent>) -> Seq<Part> {
    let f = fold_all(initial_view(), evs);
    emitted(f.order, drained(f.finished, f.open))
}

/// Folds the events of one turn into its response; events after
/// `MessageStop` are not read.
pub fn fold_turn(events: Vec<StreamEvent>, model: String) -> (r: TurnResponse)
    ensures
        block_parts(r.content@) == turn_content(events@),
        r.id@ == fold_all(initial_view(), events@).id,
        r.role@ == fold_all(initial_view(), events@).role,
        opt_seq(r.stop_reason) == fold_all(initial_view(), events@).stop_reason,
        opt_seq(r.stop_sequence) == fold_all(initial_view(), events@).stop_sequence,
        r.usage == fold_all(initial_view(), events@).usage,
        r.model == model,
{
    let mut f = TurnFold::new();
    assert(fold_view(f) == initial_view());
    let mut events = events;
    let ghost all = events@;
    while events.len() > 0
        invariant
            fold_ok(fold_view(f)),
            fold_all(fold_view(f), events@) == fold_all(initial_view(), all),
        decreases events@.len(),
    {
        let ghost before = events@;
        let ev = events.remove(0);
        assert(events@ =~= before.drop_first());
        if f.push(ev) {
            assert(fold_all(fold_view(f), Seq::<StreamEvent>::empty()) == fold_view(f));
            events = Vec::new();
        }
    }
    f.finish(model)
}


/// Every open or finished index has its place in the emission order.
pub open spec fn covered(v: FoldView) -> bool {
    &&& forall|k: u32| has_key(v.open, k) ==> v.order.contains(k)
    &&& forall|k: u32| has_key(v.finished, k) ==> v.order.contains(k)
}

proof fn lemma_remove_keys(v: Seq<(u32, Part)>, i: int, q: u32)
    requires
        0 <= i < v.len(),
        has_key(v.remove(i), q),
    ensures
        has_key(v, q),
{
    let w = v.remove(i);
    let j = choose|j: int| 0 <= j < w.len() && (#[trigger] w[j]).0 == q;
    let j2 = if j < i { j } else { j + 1 };
    assert(w[j] == v[j2]);
}

/// Folding keeps every open or finished block in the emission order, so
/// none is left out of the response.
pub proof fn lemma_fold_covers(a: FoldView, ev: StreamEvent)
    requires
        fold_ok(a),
        covered(a),
    ensures
        covered(folded(a, ev)),
{
    let b = folded(a, ev);
    match ev {
        StreamEvent::BlockStart { index, block } => {
            if let Some(p) = started(block) {
                lemma_put_unique(a.open, index, p);
                assert forall|k: u32| has_key(b.open, k) implies b.order.contains(k) by {
                    if k == index {
                        if !has_key(a.open, index) && !has_key(a.finished, index) {
                            assert(b.order[b.order.len() - 1] == index);
                        }
                    } else {
                        assert(a.order.contains(k));
                        let w = choose|w: int| 0 <= w < a.order.len() && a.order[w] == k;
                        assert(b.order[w] == k);
                    }
                }
                assert forall|k: u32| has_key(b.finished, k) implies b.order.contains(k) by {
                    assert(a.order.contains(k));
                    let w = choose|w: int| 0 <= w < a.order.len() && a.order[w] == k;
                    assert(b.order[w] == k);
                }
            }
        },
        StreamEvent::BlockDelta { index, delta } => {
            if has_key(a.open, index) {
                lemma_pos(a.open, index);
                let i = pos(a.open, index);
                assert forall|k: u32| has_key(b.open, k) implies b.order.contains(k) by {
                    let j = choose|j: int| 0 <= j < b.open.len() && (#[trigger] b.open[j]).0 == k;
                    assert(a.open[j].0 == k);
                }
            }
        },
        StreamEvent::BlockStop { index } => {
            if has_key(a.open, index) {
                lemma_pos(a.open, index);
                let i = pos(a.open, index);
                assert forall|k: u32| has_key(b.open, k) implies b.order.contains(k) by {
                    lemma_remove_keys(a.open, i, k);
                }
                if let Some(bp) = closed(a.open[i].1) {
                    lemma_put_unique(a.finished, index, bp);
                    assert(has_key(a.open, index));
                }
            }
        },
        _ => {},
    }
}

proof fn lemma_emitted_len(order: Seq<u32>, fin: Seq<(u32, Part)>)
    requires
        unique_keys(fin),
        forall|k: u32| has_key(fin, k) ==> order.contains(k),
    ensures
        emitted(order, fin).len() == fin.len(),
    decreases order.len(),
{
    if order.len() == 0 {
        if fin.len() > 0 {
            assert(has_key(fin, fin[0].0));
        }
    } else {
        let k = order[0];
        let rest = order.drop_first();
        if has_key(fin, k) {
            lemma_pos(fin, k);
            let i = pos(fin, k);
            let f2 = fin.remove(i);
            lemma_remove_unique(fin, i);
            assert forall|q: u32| has_key(f2, q) implies rest.contains(q) by {
                lemma_remove_keys(fin, i, q);
                assert(order.contains(q));
                let w = choose|w: int| 0 <= w < order.len() && order[w] == q;
                assert(q != k);
                assert(rest[w - 1] == q);
            }
            lemma_emitted_len(rest, f2);
        } else {
            assert forall|q: u32| has_key(fin, q) implies rest.contains(q) by {
                assert(order.contains(q));
                let w = choose|w: int| 0 <= w < order.len() && order[w] == q;
                assert(q != k);
                assert(rest[w - 1] == q);
            }
            lemma_emitted_len(rest, fin);
        }
    }
}

/// No finished block is lost: when every finished index is in the emission
/// order, the response holds one block per finished index.
pub proof fn lemma_no_block_lost(v: FoldView)
    requires
        fold_ok(v),
        covered(v),
    ensures
        emitted(v.order, v.finished).len() == v.finished.len(),
{
    lemma_emitted_len(v.order, v.finished);
}


/// The texts of `ds`, one after the other.
pub open spec fn joined(ds: Seq<String>) -> Seq<char>
    decreases ds.len(),
{
    if ds.len() == 0 {
        Seq::empty()
    } else {
        ds[0]@ + joined(ds.drop_first())
    }
}

/// One text delta per text of `ds`, for block `k`.
pub open spec fn text_deltas(k: u32, ds: Seq<String>) -> Seq<StreamEvent> {
    ds.map_values(|d: String| StreamEvent::BlockDelta { index: k, delta: Delta::Text { text: d } })
}

proof fn lemma_fold_all_append(a: FoldView, p: Seq<StreamEvent>, q: Seq<StreamEvent>)
    requires
        forall|i: int| 0 <= i < p.len() ==> !(#[trigger] p[i] is MessageStop),
    ensures
        fold_all(a, p + q) == fold_all(fold_all(a, p), q),
    decreases p.len(),
{
    if p.len() > 0 {
        assert((p + q)[0] == p[0]);
        assert((p + q).drop_first() =~= p.drop_first() + q);
        lemma_fold_all_append(folded(a, p[0]), p.drop_first(), q);
    } else {
        assert(p + q =~= q);
    }
}

proof fn lemma_pos_update(v: Seq<(u32, Part)>, k: u32, x: Part)
    requires
        has_key(v, k),
    ensures
        has_key(v.update(pos(v, k), (k, x)), k),
        pos(v.update(pos(v, k), (k, x)), k) == pos(v, k),
{
    lemma_pos(v, k);
    let i = pos(v, k);
    let w = v.update(i, (k, x));
    assert(w[i].0 == k);
    lemma_pos(w, k);
    if pos(w, k) < i {
        assert(w[pos(w, k)] == v[pos(w, k)]);
    }
}

proof fn lemma_fold_text_deltas(a: FoldView, k: u32, t: Seq<char>, ds: Seq<String>)
    requires
        has_key(a.open, k),
        a.open[pos(a.open, k)].1 == Part::Text(t),
    ensures
        fold_all(a, text_deltas(k, ds)) == (FoldView {
            open: a.open.update(pos(a.open, k), (k, Part::Text(t + joined(ds)))),
            ..a
        }),
    decreases ds.len(),
{
    lemma_pos(a.open, k);
    let i = pos(a.open, k);
    let evs = text_deltas(k, ds);
    if ds.len() == 0 {
        assert(t + joined(ds) =~= t);
        assert(a.open.update(i, (k, Part::Text(t + joined(ds)))) =~= a.open);
    } else {
        let t1 = t + ds[0]@;
        let a1 = folded(a, evs[0]);
        assert(a1.open == a.open.update(i, (k, Part::Text(t1))));
        lemma_pos_update(a.open, k, Part::Text(t1));
        assert(evs.drop_first() =~= text_deltas(k, ds.drop_first()));
        lemma_fold_text_deltas(a1, k, t1, ds.drop_first());
        assert(t1 + joined(ds.drop_first()) =~= t + joined(ds));
        assert(a1.open.update(i, (k, Part::Text(t1 + joined(ds.drop_first())))) =~= a.open.update(
            i,
            (k, Part::Text(t + joined(ds))),
        ));
    }
}

/// Text deltas append: a turn that opens text block `k` with `s`, sends the
/// text deltas `ds` for it and closes it holds one text block, `s` followed
/// by every delta in order (nothing when that text is empty).
pub proof fn lemma_text_deltas_append(id: String, role: String, k: u32, s: String, ds: Seq<String>)
    ensures
        turn_content(
            seq![
                StreamEvent::MessageStart { id: id, role: role },
                StreamEvent::BlockStart { index: k, block: BlockStart::Text { text: s } },
            ] + text_deltas(k, ds) + seq![StreamEvent::BlockStop { index: k }, StreamEvent::MessageStop],
        ) == if (s@ + joined(ds)).len() > 0 {
            seq![Part::Text(s@ + joined(ds))]
        } else {
            Seq::<Part>::empty()
        },
{
    let e1 = seq![
        StreamEvent::MessageStart { id: id, role: role },
        StreamEvent::BlockStart { index: k, block: BlockStart::Text { text: s } },
    ];
    let e2 = text_deltas(k, ds);
    let e3 = seq![StreamEvent::BlockStop { index: k }, StreamEvent::MessageStop];
    let evs = e1 + e2 + e3;
    let full = s@ + joined(ds);
    let init = initial_view();
    assert(evs =~= e1 + (e2 + e3));
    lemma_fold_all_append(init, e1, e2 + e3);
    // After the start: block `k` open with `s`.
    let a0 = folded(init, e1[0]);
    let a1 = folded(a0, e1[1]);
    assert(e1.drop_first().drop_first() =~= Seq::<StreamEvent>::empty());
    assert(fold_all(init, e1) == fold_all(a0, e1.drop_first()));
    assert(e1.drop_first()[0] == e1[1]);
    assert(fold_all(a0, e1.drop_first()) == fold_all(a1, e1.drop_first().drop_first()));
    assert(!has_key(a0.open, k) && !has_key(a0.finished, k));
    assert(a1.open =~= seq![(k, Part::Text(s@))]);
    assert(a1.order =~= seq![k]);
    assert(a1.finished =~= Seq::<(u32, Part)>::empty());
    assert(a1.open[0].0 == k);
    assert(has_key(a1.open, k));
    assert(pos(a1.open, k) == 0);
    // After the deltas: block `k` holds `s` and every delta.
    assert forall|i: int| 0 <= i < e2.len() implies !(#[trigger] e2[i] is MessageStop) by {}
    lemma_fold_all_append(a1, e2, e3);
    lemma_fold_text_deltas(a1, k, s@, ds);
    let a2 = fold_all(a1, e2);
    assert(a2.open =~= seq![(k, Part::Text(full))]);
    assert(a2.order == a1.order && a2.finished == a1.finished);
    // After the stop: the closed block is finished.
    assert(a2.open[0].0 == k);
    assert(has_key(a2.open, k));
    assert(pos(a2.open, k) == 0);
    let a3 = folded(a2, e3[0]);
    assert(e3.drop_first()[0] is MessageStop);
    assert(fold_all(a2, e3) == fold_all(a3, e3.drop_first()));
    assert(fold_all(a3, e3.drop_first()) == a3);
    assert(a3.open =~= Seq::<(u32, Part)>::empty());
    assert(drained(a3.finished, a3.open) == a3.finished);
    if full.len() > 0 {
        assert(closed(Part::Text(full)) == Some(Part::Text(full)));
        assert(a3.finished =~= seq![(k, Part::Text(full))]);
        assert(a3.finished[0].0 == k);
        assert(has_key(a3.finished, k));
        assert(pos(a3.finished, k) == 0);
        assert(a3.order.drop_first() =~= Seq::<u32>::empty());
        assert(emitted(a3.order, a3.finished) == seq![Part::Text(full)] + emitted(
            a3.order.drop_first(),
            a3.finished.remove(0),
        ));
        assert(emitted(a3.order, a3.finished) =~= seq![Part::Text(full)]);
    } else {
        assert(a3.finished =~= Seq::<(u32, Part)>::empty());
        assert(!has_key(a3.finished, k));
        assert(a3.order.drop_first() =~= Seq::<u32>::empty());
        assert(emitted(a3.order, a3.finished) == emitted(a3.order.drop_first(), a3.finished));
    }
}

} // verus!
