//! The streaming protocol: the events of a streamed response, what makes a
//! sequence of them well formed, and a monitor that follows a stream item
//! by item.

use crate::error::BackendResult;
use crate::message::MessageRole;
use crate::names::{distinct_names, find_name, has_name, lemma_push_name, lemma_remove_name};
use crate::response::Usage;
use vstd::prelude::*;

verus! {

/// Events in a streamed response.
#[derive(Clone, Debug, PartialEq, Eq)]
pub enum ChatStreamEvent {
    /// The response begins.
    Start { role: MessageRole },
    /// More text of the reply.
    TextDelta { text: String },
    /// A tool call begins.
    ToolCallStart { id: String, name: String },
    /// More of the input of a tool call that has begun.
    ToolCallDelta { id: String, input: String },
    /// A tool call is complete.
    ToolCallEnd { id: String },
    /// The response is complete.
    End { usage: Option<Usage> },
}

/// Mathematical model of a [`ChatStreamEvent`].
pub enum ChatStreamEventView {
    Start { role: MessageRole },
    TextDelta { text: Seq<char> },
    ToolCallStart { id: Seq<char>, name: Seq<char> },
    ToolCallDelta { id: Seq<char>, input: Seq<char> },
    ToolCallEnd { id: Seq<char> },
    End { usage: Option<Usage> },
}

impl View for ChatStreamEvent {
    type V = ChatStreamEventView;

    open spec fn view(&self) -> ChatStreamEventView {
        match *self {
            ChatStreamEvent::Start { role } => ChatStreamEventView::Start { role },
            ChatStreamEvent::TextDelta { text } => ChatStreamEventView::TextDelta { text: text@ },
            ChatStreamEvent::ToolCallStart { id, name } => ChatStreamEventView::ToolCallStart {
                id: id@,
                name: name@,
            },
            ChatStreamEvent::ToolCallDelta { id, input } => ChatStreamEventView::ToolCallDelta {
                id: id@,
                input: input@,
            },
            ChatStreamEvent::ToolCallEnd { id } => ChatStreamEventView::ToolCallEnd { id: id@ },
            ChatStreamEvent::End { usage } => ChatStreamEventView::End { usage },
        }
    }
}

/// One item of a stream: an event, or the error that cut the stream short.
pub type StreamItem = BackendResult<ChatStreamEvent>;

/// Whether `item` begins a response.
pub open spec fn is_start(item: StreamItem) -> bool {
    item matches Ok(event) && event@ is Start
}

/// Whether `item` completes a response.
pub open spec fn is_end(item: StreamItem) -> bool {
    item matches Ok(event) && event@ is End
}

/// Whether nothing can follow `item`: it completes the response, or it is
/// an error.
pub open spec fn is_terminal(item: StreamItem) -> bool {
    item is Err || is_end(item)
}

/// Whether `item` begins the tool call `id`.
pub open spec fn opens(item: StreamItem, id: Seq<char>) -> bool {
    item matches Ok(event) && event@ is ToolCallStart && event@->ToolCallStart_id == id
}

/// Whether `item` brings input of the tool call `id`.
pub open spec fn feeds(item: StreamItem, id: Seq<char>) -> bool {
    item matches Ok(event) && event@ is ToolCallDelta && event@->ToolCallDelta_id == id
}

/// Whether `item` completes the tool call `id`.
pub open spec fn closes(item: StreamItem, id: Seq<char>) -> bool {
    item matches Ok(event) && event@ is ToolCallEnd && event@->ToolCallEnd_id == id
}

/// Whether the tool call `id` begins among the first `n` items of `s`.
pub open spec fn opened_before(s: Seq<StreamItem>, n: int, id: Seq<char>) -> bool {
    exists|j: int| 0 <= j < n && #[trigger] opens(s[j], id)
}

/// Whether the tool call `id` is completed among the first `n` items of `s`.
pub open spec fn closed_before(s: Seq<StreamItem>, n: int, id: Seq<char>) -> bool {
    exists|k: int| 0 <= k < n && #[trigger] closes(s[k], id)
}

/// Whether the tool call `id` is under way after the first `n` items of
/// `s`: it has begun and is not complete.
pub open spec fn is_open(s: Seq<StreamItem>, n: int, id: Seq<char>) -> bool {
    opened_before(s, n, id) && !closed_before(s, n, id)
}

/// Whether `s` can be the beginning of a stream. The first item, and no
/// other, begins the response. Nothing follows a terminal item. No tool
/// call begins twice. Input comes only for a tool call that is under way,
/// and only such a call is completed. Where the response is completed, no
/// tool call is left under way.
pub open spec fn is_valid_prefix(s: Seq<StreamItem>) -> bool {
    &&& forall|i: int| 0 <= i < s.len() ==> (#[trigger] is_start(s[i]) <==> i == 0)
    &&& forall|i: int| 0 <= i < s.len() - 1 ==> !#[trigger] is_terminal(s[i])
    &&& forall|i: int, id: Seq<char>|
        0 <= i < s.len() && #[trigger] opens(s[i], id) ==> !opened_before(s, i, id)
    &&& forall|i: int, id: Seq<char>|
        0 <= i < s.len() && #[trigger] feeds(s[i], id) ==> is_open(s, i, id)
    &&& forall|i: int, id: Seq<char>|
        0 <= i < s.len() && #[trigger] closes(s[i], id) ==> is_open(s, i, id)
    &&& s.len() > 0 && is_end(s.last()) ==> forall|id: Seq<char>| !#[trigger] is_open(
        s,
        s.len() - 1,
        id,
    )
}

/// Whether `s` is a whole stream: the beginning of one that ends in a
/// terminal item.
pub open spec fn is_well_formed(s: Seq<StreamItem>) -> bool {
    &&& is_valid_prefix(s)
    &&& s.len() > 0
    &&& is_terminal(s.last())
}

/// Whether `item` may follow the beginning `s` of a stream.
pub open spec fn may_follow(s: Seq<StreamItem>, item: StreamItem) -> bool {
    if s.len() == 0 {
        is_start(item)
    } else {
        &&& !is_start(item)
        &&& !is_terminal(s.last())
        &&& forall|id: Seq<char>| #[trigger] opens(item, id) ==> !opened_before(s, s.len() as int, id)
        &&& forall|id: Seq<char>| #[trigger] feeds(item, id) ==> is_open(s, s.len() as int, id)
        &&& forall|id: Seq<char>| #[trigger] closes(item, id) ==> is_open(s, s.len() as int, id)
        &&& is_end(item) ==> forall|id: Seq<char>| !#[trigger] is_open(s, s.len() as int, id)
    }
}

/// What has begun and what is complete among the first `n` items of a
/// stream does not depend on the items that follow them.
pub proof fn lemma_history_is_stable(s: Seq<StreamItem>, item: StreamItem, n: int, id: Seq<char>)
    requires
        0 <= n <= s.len(),
    ensures
        opened_before(s.push(item), n, id) == opened_before(s, n, id),
        closed_before(s.push(item), n, id) == closed_before(s, n, id),
        is_open(s.push(item), n, id) == is_open(s, n, id),
{
    let t = s.push(item);
    if opened_before(s, n, id) {
        let j = choose|j: int| 0 <= j < n && #[trigger] opens(s[j], id);
        assert(t[j] == s[j]);
        assert(opens(t[j], id));
    }
    if opened_before(t, n, id) {
        let j = choose|j: int| 0 <= j < n && #[trigger] opens(t[j], id);
        assert(t[j] == s[j]);
        assert(opens(s[j], id));
    }
    if closed_before(s, n, id) {
        let k = choose|k: int| 0 <= k < n && #[trigger] closes(s[k], id);
        assert(t[k] == s[k]);
        assert(closes(t[k], id));
    }
    if closed_before(t, n, id) {
        let k = choose|k: int| 0 <= k < n && #[trigger] closes(t[k], id);
        assert(t[k] == s[k]);
        assert(closes(s[k], id));
    }
}

/// One more item adds to what has begun, and to what is complete, the
/// tool call that it begins or completes.
pub proof fn lemma_history_grows(s: Seq<StreamItem>, item: StreamItem, id: Seq<char>)
    ensures
        opened_before(s.push(item), s.len() as int + 1, id) == (opened_before(s, s.len() as int, id)
            || opens(item, id)),
        closed_before(s.push(item), s.len() as int + 1, id) == (closed_before(s, s.len() as int, id)
            || closes(item, id)),
{
    let t = s.push(item);
    let n = s.len() as int;
    assert(t[n] == item);
    if opened_before(s, n, id) {
        let j = choose|j: int| 0 <= j < n && #[trigger] opens(s[j], id);
        assert(t[j] == s[j]);
        assert(opens(t[j], id));
    }
    if opens(item, id) {
        assert(opens(t[n], id));
    }
    if opened_before(t, n + 1, id) {
        let j = choose|j: int| 0 <= j < n + 1 && #[trigger] opens(t[j], id);
        if j < n {
            assert(t[j] == s[j]);
            assert(opens(s[j], id));
        }
    }
    if closed_before(s, n, id) {
        let k = choose|k: int| 0 <= k < n && #[trigger] closes(s[k], id);
        assert(t[k] == s[k]);
        assert(closes(t[k], id));
    }
    if closes(item, id) {
        assert(closes(t[n], id));
    }
    if closed_before(t, n + 1, id) {
        let k = choose|k: int| 0 <= k < n + 1 && #[trigger] closes(t[k], id);
        if k < n {
            assert(t[k] == s[k]);
            assert(closes(s[k], id));
        }
    }
}

/// A beginning of a stream stays one when its last item is taken away.
pub proof fn lemma_valid_prefix_shrinks(s: Seq<StreamItem>, item: StreamItem)
    requires
        is_valid_prefix(s.push(item)),
    ensures
        is_valid_prefix(s),
{
    let t = s.push(item);
    assert forall|i: int| 0 <= i < s.len() implies (#[trigger] is_start(s[i]) <==> i == 0) by {
        assert(t[i] == s[i]);
        assert(is_start(t[i]) <==> i == 0);
    }
    assert forall|i: int| 0 <= i < s.len() - 1 implies !#[trigger] is_terminal(s[i]) by {
        assert(t[i] == s[i]);
        assert(!is_terminal(t[i]));
    }
    assert forall|i: int, id: Seq<char>| 0 <= i < s.len() && #[trigger] opens(s[i], id) implies
        !opened_before(s, i, id) by {
        assert(t[i] == s[i]);
        assert(opens(t[i], id));
        lemma_history_is_stable(s, item, i, id);
    }
    assert forall|i: int, id: Seq<char>| 0 <= i < s.len() && #[trigger] feeds(s[i], id) implies
        is_open(s, i, id) by {
        assert(t[i] == s[i]);
        assert(feeds(t[i], id));
        lemma_history_is_stable(s, item, i, id);
    }
    assert forall|i: int, id: Seq<char>| 0 <= i < s.len() && #[trigger] closes(s[i], id) implies
        is_open(s, i, id) by {
        assert(t[i] == s[i]);
        assert(closes(t[i], id));
        lemma_history_is_stable(s, item, i, id);
    }
    if s.len() > 0 {
        assert(t[s.len() - 1] == s.last());
        assert(!is_terminal(t[s.len() - 1]));
    }
}

/// Whatever begins a beginning of a stream is a beginning of a stream.
pub proof fn lemma_prefixes_are_valid(s: Seq<StreamItem>, n: int)
    requires
        is_valid_prefix(s),
        0 <= n <= s.len(),
    ensures
        is_valid_prefix(s.take(n)),
    decreases s.len() - n,
{
    if n == s.len() {
        assert(s.take(n) =~= s);
    } else {
        lemma_prefixes_are_valid(s, n + 1);
        assert(s.take(n + 1) =~= s.take(n).push(s[n]));
        lemma_valid_prefix_shrinks(s.take(n), s[n]);
    }
}

/// A beginning of a stream with one more item is a beginning of a stream
/// exactly when the item may follow it.
pub proof fn lemma_valid_prefix_push(s: Seq<StreamItem>, item: StreamItem)
    ensures
        is_valid_prefix(s.push(item)) <==> is_valid_prefix(s) && may_follow(s, item),
{
    let t = s.push(item);
    let n = s.len() as int;
    assert(t[n] == item);
    assert(t.last() == item);
    if is_valid_prefix(t) {
        lemma_valid_prefix_shrinks(s, item);
        assert(is_start(t[n]) <==> n == 0);
        if n > 0 {
            assert(t[n - 1] == s.last());
            assert(!is_terminal(t[n - 1]));
            assert forall|id: Seq<char>| #[trigger] opens(item, id) implies !opened_before(
                s,
                n,
                id,
            ) by {
                assert(opens(t[n], id));
                lemma_history_is_stable(s, item, n, id);
            }
            assert forall|id: Seq<char>| #[trigger] feeds(item, id) implies is_open(s, n, id) by {
                assert(feeds(t[n], id));
                lemma_history_is_stable(s, item, n, id);
            }
            assert forall|id: Seq<char>| #[trigger] closes(item, id) implies is_open(s, n, id) by {
                assert(closes(t[n], id));
                lemma_history_is_stable(s, item, n, id);
            }
            if is_end(item) {
                assert forall|id: Seq<char>| !#[trigger] is_open(s, n, id) by {
                    assert(!is_open(t, t.len() - 1, id));
                    lemma_history_is_stable(s, item, n, id);
                }
            }
        }
    }
    if is_valid_prefix(s) && may_follow(s, item) {
        assert forall|i: int| 0 <= i < t.len() implies (#[trigger] is_start(t[i]) <==> i == 0) by {
            if i < n {
                assert(t[i] == s[i]);
                assert(is_start(s[i]) <==> i == 0);
            }
        }
        assert forall|i: int| 0 <= i < t.len() - 1 implies !#[trigger] is_terminal(t[i]) by {
            assert(t[i] == s[i]);
            if i < n - 1 {
                assert(!is_terminal(s[i]));
            }
        }
        assert forall|i: int, id: Seq<char>| 0 <= i < t.len() && #[trigger] opens(t[i], id) implies
            !opened_before(t, i, id) by {
            lemma_history_is_stable(s, item, i, id);
            if i < n {
                assert(t[i] == s[i]);
                assert(opens(s[i], id));
            }
        }
        assert forall|i: int, id: Seq<char>| 0 <= i < t.len() && #[trigger] feeds(t[i], id) implies
            is_open(t, i, id) by {
            lemma_history_is_stable(s, item, i, id);
            if i < n {
                assert(t[i] == s[i]);
                assert(feeds(s[i], id));
            }
        }
        assert forall|i: int, id: Seq<char>| 0 <= i < t.len() && #[trigger] closes(t[i], id) implies
            is_open(t, i, id) by {
            lemma_history_is_stable(s, item, i, id);
            if i < n {
                assert(t[i] == s[i]);
                assert(closes(s[i], id));
            }
        }
        if is_end(t.last()) {
            assert forall|id: Seq<char>| !#[trigger] is_open(t, t.len() - 1, id) by {
                lemma_history_is_stable(s, item, n, id);
                if n > 0 {
                    assert(!is_open(s, n, id));
                }
            }
        }
    }
}

/// A stream that has begun and is not over can fail at any point: with an
/// error as its next item it is a whole stream, whatever tool calls are
/// under way.
pub proof fn lemma_error_ends_a_running_stream(s: Seq<StreamItem>, item: StreamItem)
    requires
        is_valid_prefix(s),
        s.len() > 0,
        !is_terminal(s.last()),
        item is Err,
    ensures
        is_well_formed(s.push(item)),
{
    lemma_valid_prefix_push(s, item);
    assert(s.push(item).last() == item);
}

/// A whole stream begins exactly once: with its first item.
pub proof fn lemma_exactly_one_start(s: Seq<StreamItem>)
    requires
        is_well_formed(s),
    ensures
        is_start(s[0]),
        forall|i: int| 0 < i < s.len() ==> !#[trigger] is_start(s[i]),
{
    assert(is_start(s[0]) <==> 0 == 0);
    assert forall|i: int| 0 < i < s.len() implies !#[trigger] is_start(s[i]) by {
        assert(is_start(s[i]) <==> i == 0);
    }
}

/// A whole stream ends exactly once: with its last item, which is not its
/// first.
pub proof fn lemma_exactly_one_terminal(s: Seq<StreamItem>)
    requires
        is_well_formed(s),
    ensures
        s.len() >= 2,
        is_terminal(s.last()),
        forall|i: int| 0 <= i < s.len() - 1 ==> !#[trigger] is_terminal(s[i]),
{
    assert(is_start(s[0]) <==> 0 == 0);
}

/// In a whole stream the input of a tool call comes after the call has
/// begun and before it is complete. Where the response is completed, the
/// call is completed too, later in the stream.
pub proof fn lemma_input_lies_within_its_call(s: Seq<StreamItem>, i: int, id: Seq<char>)
    requires
        is_well_formed(s),
        0 <= i < s.len(),
        feeds(s[i], id),
    ensures
        exists|j: int| 0 <= j < i && #[trigger] opens(s[j], id),
        forall|k: int| 0 <= k <= i ==> !#[trigger] closes(s[k], id),
        is_end(s.last()) ==> exists|k: int| i < k < s.len() - 1 && #[trigger] closes(s[k], id),
{
    assert(is_open(s, i, id));
    assert(i < s.len() - 1);
    let j = choose|j: int| 0 <= j < i && #[trigger] opens(s[j], id);
    if is_end(s.last()) {
        assert(!is_open(s, s.len() - 1, id));
        assert(opens(s[j], id));
        assert(opened_before(s, s.len() - 1, id));
        let k = choose|k: int| 0 <= k < s.len() - 1 && #[trigger] closes(s[k], id);
        assert(closes(s[k], id));
        assert(k > i);
    }
}

/// Where the monitor stands in a stream.
#[derive(Clone, Copy, Debug, PartialEq, Eq, Structural)]
enum Phase {
    /// Nothing has come yet.
    Fresh,
    /// The response has begun and is not over.
    Running,
    /// The stream is whole.
    Ended,
    /// The items so far are not the beginning of any stream.
    Broken,
}

/// Follows a stream item by item and tells whether what has come so far
/// keeps to the protocol.
pub struct StreamMonitor {
    phase: Phase,
    /// Every tool call that has begun.
    seen: Vec<String>,
    /// The tool calls that are under way.
    open: Vec<String>,
    /// The items that have come.
    trace: Ghost<Seq<StreamItem>>,
}

impl StreamMonitor {
    /// The items that the monitor has been shown, in their order.
    pub closed spec fn trace(&self) -> Seq<StreamItem> {
        self.trace@
    }

    /// What the monitor keeps of the items it has been shown.
    pub closed spec fn inv(&self) -> bool {
        let s = self.trace@;
        let n = s.len() as int;
        match self.phase {
            Phase::Fresh => n == 0 && self.seen@.len() == 0 && self.open@.len() == 0,
            Phase::Running => {
                &&& n > 0
                &&& is_valid_prefix(s)
                &&& !is_terminal(s.last())
                &&& distinct_names(self.open@)
                &&& forall|id: Seq<char>|
                    #![trigger has_name(self.seen@, id)]
                    #![trigger opened_before(s, n, id)]
                    has_name(self.seen@, id) <==> opened_before(s, n, id)
                &&& forall|id: Seq<char>|
                    #![trigger has_name(self.open@, id)]
                    #![trigger is_open(s, n, id)]
                    has_name(self.open@, id) <==> is_open(s, n, id)
            },
            Phase::Ended => is_well_formed(s),
            Phase::Broken => !is_valid_prefix(s),
        }
    }

    /// A monitor that has been shown nothing.
    pub fn new() -> (monitor: StreamMonitor)
        ensures
            monitor.inv(),
            monitor.trace() == Seq::<StreamItem>::empty(),
    {
        StreamMonitor {
            phase: Phase::Fresh,
            seen: Vec::new(),
            open: Vec::new(),
            trace: Ghost(Seq::empty()),
        }
    }

    /// Shows the monitor the next item of the stream. The answer is whether
    /// the items shown so far, this one included, can be the beginning of
    /// a stream.
    pub fn observe(&mut self, item: &StreamItem) -> (ok: bool)
        requires
            old(self).inv(),
        ensures
            final(self).inv(),
            final(self).trace() == old(self).trace().push(*item),
            ok == is_valid_prefix(final(self).trace()),
    {
        let ghost s = self.trace@;
        let ghost n = s.len() as int;
        let ghost t = s.push(*item);
        proof {
            lemma_valid_prefix_push(s, *item);
            assert(t.last() == *item);
            let m = t.len() as int;
            assert forall|id: Seq<char>|
                #![trigger opened_before(t, m, id)]
                #![trigger closed_before(t, m, id)]
                #![trigger is_open(t, m, id)]
                #![trigger opened_before(s, n, id)]
                #![trigger is_open(s, n, id)]
                opened_before(t, m, id) == (opened_before(s, n, id) || opens(*item, id))
                && closed_before(t, m, id) == (closed_before(s, n, id) || closes(*item, id)) by {
                lemma_history_grows(s, *item, id);
            }
        }
        self.trace = Ghost(t);
        match self.phase {
            Phase::Fresh => {
                let begins = match item {
                    Ok(ChatStreamEvent::Start { .. }) => true,
                    _ => false,
                };
                if begins {
                    self.phase = Phase::Running;
                    proof {
                        assert forall|id: Seq<char>| !opened_before(s, n, id) by {}
                        assert forall|id: Seq<char>| !has_name(self.seen@, id) by {}
                        assert forall|id: Seq<char>| !has_name(self.open@, id) by {}
                    }
                } else {
                    self.phase = Phase::Broken;
                }
            },
            Phase::Running => {
                match item {
                    Err(_) => {
                        self.phase = Phase::Ended;
                    },
                    Ok(ChatStreamEvent::Start { .. }) => {
                        self.phase = Phase::Broken;
                    },
                    Ok(ChatStreamEvent::TextDelta { .. }) => {},
                    Ok(ChatStreamEvent::ToolCallStart { id, .. }) => {
                        match find_name(&self.seen, id) {
                            Some(_) => {
                                assert(opens(*item, id@));
                                self.phase = Phase::Broken;
                            },
                            None => {
                                proof {
                                    lemma_push_name(self.seen@, *id);
                                    lemma_push_name(self.open@, *id);
                                    assert(!is_open(s, n, id@));
                                    assert forall|other: Seq<char>| #[trigger]
                                        opens(*item, other) implies other == id@ by {}
                                }
                                self.seen.push(id.clone());
                                self.open.push(id.clone());
                            },
                        }
                    },
                    Ok(ChatStreamEvent::ToolCallDelta { id, .. }) => {
                        assert(feeds(*item, id@));
                        match find_name(&self.open, id) {
                            Some(_) => {
                                assert forall|other: Seq<char>| #[trigger]
                                    feeds(*item, other) implies other == id@ by {}
                            },
                            None => {
                                self.phase = Phase::Broken;
                            },
                        }
                    },
                    Ok(ChatStreamEvent::ToolCallEnd { id }) => {
                        assert(closes(*item, id@));
                        match find_name(&self.open, id) {
                            Some(place) => {
                                proof {
                                    lemma_remove_name(self.open@, place as int);
                                    assert forall|other: Seq<char>| #[trigger]
                                        closes(*item, other) implies other == id@ by {}
                                }
                                self.open.remove(place);
                            },
                            None => {
                                self.phase = Phase::Broken;
                            },
                        }
                    },
                    Ok(ChatStreamEvent::End { .. }) => {
                        assert(is_end(*item));
                        if self.open.len() == 0 {
                            proof {
                                assert forall|id: Seq<char>| !has_name(self.open@, id) by {}
                            }
                            self.phase = Phase::Ended;
                        } else {
                            proof {
                                let id = self.open@[0]@;
                                assert(has_name(self.open@, id));
                                assert(is_open(s, n, id));
                            }
                            self.phase = Phase::Broken;
                        }
                    },
                }
            },
            Phase::Ended => {
                self.phase = Phase::Broken;
            },
            Phase::Broken => {},
        }
        match self.phase {
            Phase::Broken => false,
            _ => true,
        }
    }

    /// Whether the items shown so far are a whole stream.
    pub fn is_complete(&self) -> (done: bool)
        requires
            self.inv(),
        ensures
            done == is_well_formed(self.trace()),
    {
        match self.phase {
            Phase::Ended => true,
            _ => false,
        }
    }
}

/// Whether `items` are a whole stream that keeps to the protocol.
pub fn is_whole_stream(items: &Vec<StreamItem>) -> (ok: bool)
    ensures
        ok == is_well_formed(items@),
{
    let mut monitor = StreamMonitor::new();
    let mut i: usize = 0;
    assert(items@.take(0) =~= Seq::<StreamItem>::empty());
    while i < items.len()
        invariant
            i <= items@.len(),
            monitor.inv(),
            monitor.trace() == items@.take(i as int),
        decreases items@.len() - i,
    {
        let _ = monitor.observe(&items[i]);
        assert(items@.take(i as int).push(items@[i as int]) =~= items@.take(i + 1));
        i = i + 1;
    }
    assert(items@.take(i as int) =~= items@);
    monitor.is_complete()
}

} // verus!
