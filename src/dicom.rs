//! The sequence-tree builder: decodes elements one after another, descending
//! into sequences and their items, and records each element with the index of
//! its parent.
//!
//! Node indices follow a container whose node `0` is a synthetic root and
//! whose node `k + 1` is the `k`-th decoded element; an element's parent is
//! the root or the sequence or item that encloses it.
use vstd::prelude::*;

use crate::dicom_handlers::{with_child, DicomContainer, DicomHandler, DicomNodeView, HandlerCall};
use crate::dicom_reader::{
    element_at, lemma_element_bounds, lemma_meta_group_is_explicit_le, next_tag,
};
use crate::dicom_tag::{syntax_change, DicomTag, DicomTagView};
use crate::errors::DecodeError;
use crate::readers::{read_bytes, ByteCursor};
use crate::tags::{is_item, is_item_delimiter, is_sequence_delimiter};
use crate::transfer_syntax::{default_syntax, TransferSyntax};
use crate::vr_type::VrType;

verus! {

broadcast use crate::readers::lemma_offset_nonnegative;

/// One level of the descent: where it ends, the node its elements hang
/// under, and the ambient syntax of its next element.
#[derive(Clone, Copy, Debug, PartialEq, Eq, Structural)]
pub struct Frame {
    pub limit: usize,
    pub parent: usize,
    pub syntax: TransferSyntax,
}

/// A decoded element and the node index of its parent.
#[derive(Clone, Debug, PartialEq, Eq)]
pub struct TagEvent {
    pub parent: usize,
    pub tag: DicomTag,
}

/// The mathematical content of a [`TagEvent`].
pub struct TagEventView {
    pub parent: usize,
    pub tag: DicomTagView,
}

impl View for TagEvent {
    type V = TagEventView;

    open spec fn view(&self) -> TagEventView {
        TagEventView { parent: self.parent, tag: self.tag@ }
    }
}

/// The views of a list of events.
pub open spec fn events_view(events: Seq<TagEvent>) -> Seq<TagEventView> {
    events.map_values(|e: TagEvent| e@)
}

/// The limit of the level that a sequence or item opens, its header ending at
/// `end`: the end of the stream for an undefined length, else `end` plus the
/// length, which must lie within the stream.
pub open spec fn inner_limit(bytes: Seq<u8>, end: int, length: Option<u32>) -> Result<int, DecodeError> {
    match length {
        None => Ok(bytes.len() as int),
        Some(l) => if end + l > bytes.len() {
            Err(DecodeError::UnexpectedEnd)
        } else {
            Ok(end + l)
        },
    }
}

/// Elements that open a level of their own: sequences, and the items inside
/// them.
pub open spec fn opens_level(tag: DicomTagView) -> bool {
    tag.vr == VrType::SequenceOfItems || is_item(tag.group, tag.element)
}

/// Elements that close the level they are decoded in: a Sequence Delimitation
/// closes a sequence of undefined length, an Item Delimitation an item of
/// undefined length.
pub open spec fn closes_level(tag: DicomTagView) -> bool {
    is_sequence_delimiter(tag.group, tag.element) || is_item_delimiter(tag.group, tag.element)
}

/// The descent from offset `pos` with the levels `stack` still open
/// (innermost last), after `events` were recorded: every element recorded,
/// and where the descent stopped or the error that ended it. The elements
/// recorded before an error are kept.
///
/// A level ends when the offset reaches its limit. Otherwise the next element
/// is decoded under the level's syntax; a Transfer Syntax UID element changes
/// the syntax of what follows, and fails when its value is not text. The
/// element is then recorded under the level's parent. When it ends at or past
/// the limit, or is a delimitation, the level ends; a sequence or an item opens
/// a new level whose parent is that element, bounded by its declared length or,
/// for an undefined length, by the end of the stream; the level then goes on
/// with the next sibling.
pub open spec fn walk(bytes: Seq<u8>, pos: int, stack: Seq<Frame>, events: Seq<TagEventView>) -> (
    Seq<TagEventView>,
    Result<int, DecodeError>,
)
    decreases bytes.len() - pos, stack.len(),
{
    if stack.len() == 0 {
        (events, Ok(pos))
    } else {
        let top = stack.last();
        if pos >= top.limit {
            walk(bytes, pos, stack.drop_last(), events)
        } else {
            match element_at(bytes, pos, top.syntax) {
                Err(e) => (events, Err(e)),
                Ok((tag, end)) => match syntax_change(tag) {
                    Err(e) => (events, Err(e)),
                    Ok(change) => {
                        let syntax = match change {
                            Some(s) => s,
                            None => top.syntax,
                        };
                        let recorded = events.push(TagEventView { parent: top.parent, tag });
                        if end >= top.limit || closes_level(tag) {
                            walk(bytes, end, stack.drop_last(), recorded)
                        } else {
                            let level = stack.drop_last().push(Frame { syntax, ..top });
                            if opens_level(tag) {
                                match inner_limit(bytes, end, tag.marker.value_length) {
                                    Err(e) => (recorded, Err(e)),
                                    Ok(limit) => walk(
                                        bytes,
                                        end,
                                        level.push(
                                            Frame {
                                                limit: limit as usize,
                                                parent: recorded.len() as usize,
                                                syntax,
                                            },
                                        ),
                                        recorded,
                                    ),
                                }
                            } else {
                                walk(bytes, end, level, recorded)
                            }
                        }
                    },
                },
            }
        }
    }
}

/// The descent that starts at `pos` with one level, bounded by `limit`,
/// hanging under the root.
pub open spec fn walk_from(bytes: Seq<u8>, pos: int, syntax: TransferSyntax, limit: usize) -> (
    Seq<TagEventView>,
    Result<int, DecodeError>,
) {
    walk(bytes, pos, seq![Frame { limit, parent: 0, syntax }], Seq::empty())
}

/// Decodes elements from the cursor's offset, starting under `syntax`, until
/// the outermost level, bounded by `limit_pos`, ends, and appends every
/// element, in stream order with the node index of its parent, to `events`.
/// On success the cursor is left where the descent stopped; on a fatal
/// element the error is returned and `events` holds the elements before it.
pub fn parse_tags(
    reader: &mut ByteCursor,
    syntax: TransferSyntax,
    limit_pos: usize,
    events: &mut Vec<TagEvent>,
) -> (r: Result<(), DecodeError>)
    requires
        old(events)@.len() == 0,
    ensures
        final(reader).contents() == old(reader).contents(),
        events_view(final(events)@) == walk_from(
            old(reader).contents(),
            old(reader).offset(),
            syntax,
            limit_pos,
        ).0,
        match walk_from(old(reader).contents(), old(reader).offset(), syntax, limit_pos).1 {
            Ok(end) => r is Ok && final(reader).offset() == end,
            Err(e) => r == Err::<(), DecodeError>(e),
        },
{
    let ghost bytes = reader.contents();
    let ghost goal = walk_from(bytes, reader.offset(), syntax, limit_pos);
    let mut stack: Vec<Frame> = Vec::new();
    stack.push(Frame { limit: limit_pos, parent: 0, syntax });
    proof {
        assert(stack@ == seq![Frame { limit: limit_pos, parent: 0, syntax }]);
        assert(events_view(events@) == Seq::<TagEventView>::empty());
    }
    while stack.len() > 0
        invariant
            reader.contents() == bytes,
            bytes == old(reader).contents(),
            goal == walk_from(bytes, old(reader).offset(), syntax, limit_pos),
            walk(bytes, reader.offset(), stack@, events_view(events@)) == goal,
        decreases bytes.len() - reader.offset(), stack.len(),
    {
        let top = stack[stack.len() - 1];
        let ghost before = events_view(events@);
        if reader.pos() >= top.limit {
            stack.pop();
        } else {
            let tag = match next_tag(reader, top.syntax) {
                Ok(t) => t,
                Err(e) => return Err(e),
            };
            let ghost tag_view = tag@;
            let syntax = match tag.try_transfer_syntax() {
                Ok(Some(s)) => s,
                Ok(None) => top.syntax,
                Err(e) => return Err(e),
            };
            let end = reader.pos();
            let closes = end >= top.limit || is_sequence_delimiter(tag.group, tag.element)
                || is_item_delimiter(tag.group, tag.element);
            let opens = tag.vr == VrType::SequenceOfItems || is_item(tag.group, tag.element);
            let length = tag.marker.value_length;
            events.push(TagEvent { parent: top.parent, tag });
            let ghost recorded = before.push(TagEventView { parent: top.parent, tag: tag_view });
            proof {
                assert(events_view(events@) == recorded);
            }
            stack.pop();
            if !closes {
                stack.push(Frame { syntax, ..top });
                if opens {
                    let len = reader.len();
                    let limit = match length {
                        None => len,
                        Some(l) => {
                            if l as usize > len - end {
                                return Err(DecodeError::UnexpectedEnd);
                            }
                            end + l as usize
                        },
                    };
                    stack.push(Frame { limit, parent: events.len(), syntax });
                }
            }
        }
    }
    Ok(())
}

/// Node `parent` may hold children once `events` are recorded: it is the
/// root or an already recorded sequence or item.
pub open spec fn may_parent(events: Seq<TagEventView>, parent: int) -> bool {
    parent == 0 || (1 <= parent <= events.len() && opens_level(events[parent - 1].tag))
}

/// Every element hangs under the root or under a sequence or item recorded
/// before it: the events describe a tree in pre-order.
pub open spec fn events_wf(events: Seq<TagEventView>) -> bool {
    forall|k: int|
        0 <= k < events.len() ==> #[trigger] events[k].parent <= k && may_parent(
            events,
            events[k].parent as int,
        )
}

/// Every open level hangs under the root or under a recorded sequence or item.
pub open spec fn frames_wf(stack: Seq<Frame>, events: Seq<TagEventView>) -> bool {
    forall|i: int| 0 <= i < stack.len() ==> #[trigger] may_parent(events, stack[i].parent as int)
}

/// Recording one more element under a node that may hold children keeps the
/// events and the open levels well formed.
proof fn lemma_record_wf(stack: Seq<Frame>, events: Seq<TagEventView>, event: TagEventView)
    requires
        events_wf(events),
        frames_wf(stack, events),
        event.parent <= events.len(),
        may_parent(events, event.parent as int),
    ensures
        events_wf(events.push(event)),
        frames_wf(stack, events.push(event)),
{
    let recorded = events.push(event);
    assert(forall|p: int| may_parent(events, p) ==> may_parent(recorded, p));
    assert forall|k: int| 0 <= k < recorded.len() implies #[trigger] recorded[k].parent <= k
        && may_parent(recorded, recorded[k].parent as int) by {
        if k < events.len() {
            assert(recorded[k] == events[k]);
        }
    }
    assert forall|i: int| 0 <= i < stack.len() implies #[trigger] may_parent(
        recorded,
        stack[i].parent as int,
    ) by {}
}

/// Opening the level `top` keeps the levels well formed when its parent may
/// hold children.
proof fn lemma_frames_wf_push(stack: Seq<Frame>, events: Seq<TagEventView>, top: Frame)
    requires
        frames_wf(stack, events),
        may_parent(events, top.parent as int),
    ensures
        frames_wf(stack.push(top), events),
{
    let pushed = stack.push(top);
    assert forall|i: int| 0 <= i < pushed.len() implies #[trigger] may_parent(
        events,
        pushed[i].parent as int,
    ) by {
        if i < stack.len() {
            assert(pushed[i] == stack[i]);
        }
    }
}

/// Dropping the innermost level keeps the levels well formed.
proof fn lemma_frames_wf_pop(stack: Seq<Frame>, events: Seq<TagEventView>)
    requires
        frames_wf(stack, events),
        stack.len() > 0,
    ensures
        frames_wf(stack.drop_last(), events),
{
    let outer = stack.drop_last();
    assert forall|i: int| 0 <= i < outer.len() implies #[trigger] may_parent(
        events,
        outer[i].parent as int,
    ) by {
        assert(outer[i] == stack[i]);
    }
}

/// The descent only ever hangs elements under the root or under sequences
/// and items that came before them, whether it ends normally or on an error.
#[verifier::rlimit(100)]
pub proof fn lemma_walk_wf(bytes: Seq<u8>, pos: int, stack: Seq<Frame>, events: Seq<TagEventView>)
    requires
        events_wf(events),
        frames_wf(stack, events),
        events.len() <= pos,
        bytes.len() <= usize::MAX,
    ensures
        events_wf(walk(bytes, pos, stack, events).0),
    decreases bytes.len() - pos, stack.len(),
{
    if stack.len() > 0 {
        let top = stack.last();
        assert(may_parent(events, stack[stack.len() - 1].parent as int));
        lemma_frames_wf_pop(stack, events);
        if pos >= top.limit {
            lemma_walk_wf(bytes, pos, stack.drop_last(), events);
        } else if let Ok((tag, end)) = element_at(bytes, pos, top.syntax) {
            lemma_element_bounds(bytes, pos, top.syntax);
            if let Ok(change) = syntax_change(tag) {
                let syntax = match change {
                    Some(s) => s,
                    None => top.syntax,
                };
                let event = TagEventView { parent: top.parent, tag };
                let recorded = events.push(event);
                let outer = stack.drop_last();
                lemma_record_wf(outer, events, event);
                if end >= top.limit || closes_level(tag) {
                    lemma_walk_wf(bytes, end, outer, recorded);
                } else {
                    let level = outer.push(Frame { syntax, ..top });
                    assert(may_parent(recorded, top.parent as int));
                    lemma_frames_wf_push(outer, recorded, Frame { syntax, ..top });
                    if opens_level(tag) {
                        if let Ok(limit) = inner_limit(bytes, end, tag.marker.value_length) {
                            let inner = Frame {
                                limit: limit as usize,
                                parent: recorded.len() as usize,
                                syntax,
                            };
                            assert(may_parent(recorded, recorded.len() as int));
                            lemma_frames_wf_push(level, recorded, inner);
                            lemma_walk_wf(bytes, end, level.push(inner), recorded);
                        }
                    } else {
                        lemma_walk_wf(bytes, end, level, recorded);
                    }
                }
            }
        }
    }
}

/// The descent keeps what was recorded before it and only appends.
#[verifier::rlimit(100)]
pub proof fn lemma_walk_extends(bytes: Seq<u8>, pos: int, stack: Seq<Frame>, events: Seq<TagEventView>)
    ensures
        walk(bytes, pos, stack, events).0.len() >= events.len(),
        forall|i: int|
            0 <= i < events.len() ==> #[trigger] walk(bytes, pos, stack, events).0[i] == events[i],
    decreases bytes.len() - pos, stack.len(),
{
    if stack.len() > 0 {
        let top = stack.last();
        if pos >= top.limit {
            lemma_walk_extends(bytes, pos, stack.drop_last(), events);
        } else if let Ok((tag, end)) = element_at(bytes, pos, top.syntax) {
            lemma_element_bounds(bytes, pos, top.syntax);
            if let Ok(change) = syntax_change(tag) {
                let syntax = match change {
                    Some(s) => s,
                    None => top.syntax,
                };
                let recorded = events.push(TagEventView { parent: top.parent, tag });
                let level = stack.drop_last().push(Frame { syntax, ..top });
                if end >= top.limit || closes_level(tag) {
                    lemma_walk_extends(bytes, end, stack.drop_last(), recorded);
                } else if opens_level(tag) {
                    if let Ok(limit) = inner_limit(bytes, end, tag.marker.value_length) {
                        lemma_walk_extends(
                            bytes,
                            end,
                            level.push(
                                Frame { limit: limit as usize, parent: recorded.len() as usize, syntax },
                            ),
                            recorded,
                        );
                    }
                } else {
                    lemma_walk_extends(bytes, end, level, recorded);
                }
                assert forall|i: int| 0 <= i < events.len() implies #[trigger] walk(
                    bytes,
                    pos,
                    stack,
                    events,
                ).0[i] == events[i] by {
                    assert(recorded[i] == events[i]);
                }
            }
        }
    }
}

/// Offset of the first element: 132 when the 128-byte preamble is followed by
/// the magic `DICM`, else 0 (a stream without preamble).
pub open spec fn body_start(bytes: Seq<u8>) -> int {
    if bytes.len() >= 132 && bytes[128] == 0x44 && bytes[129] == 0x49 && bytes[130] == 0x43
        && bytes[131] == 0x4D {
        132
    } else {
        0
    }
}

/// The descent over a whole stream: from the first element to the end of the
/// stream, under the default syntax, hanging under the root.
pub open spec fn parsed_events(bytes: Seq<u8>) -> (Seq<TagEventView>, Result<int, DecodeError>) {
    walk_from(bytes, body_start(bytes), default_syntax(), bytes.len() as usize)
}

/// Moves the cursor to the first element, past the preamble and magic when
/// the stream has them.
fn skip_preamble(reader: &mut ByteCursor)
    ensures
        final(reader).contents() == old(reader).contents(),
        final(reader).offset() == body_start(old(reader).contents()),
{
    let len = reader.len();
    if len >= 132 {
        reader.seek(128);
        if let Ok(magic) = read_bytes(reader, 4) {
            // "DICM"
            if magic[0] == 0x44 && magic[1] == 0x49 && magic[2] == 0x43 && magic[3] == 0x4D {
                return ;
            }
        }
    }
    reader.seek(0);
}

/// `calls` hand `events` over one for one, with `root` as the index of the
/// root: call `k` carries the `k`-th element, and its parent index is `root`
/// for an element under the root, else the index that the handler returned
/// for the element's parent.
pub open spec fn delivered(events: Seq<TagEventView>, calls: Seq<HandlerCall>, root: usize) -> bool {
    &&& calls.len() == events.len()
    &&& forall|k: int|
        0 <= k < events.len() ==> {
            &&& (#[trigger] calls[k]).1 == events[k].tag
            &&& calls[k].0 == if events[k].parent == 0 {
                root
            } else {
                calls[events[k].parent - 1].2
            }
        }
}

/// Decodes a whole stream and hands every element, in stream order, to
/// `dicom_handler` together with the index the handler returned for its
/// parent (`0` for the root). Returns the number of elements; on a fatal
/// element returns its error, after handing over the elements before it.
pub fn parse<H: DicomHandler>(reader: &mut ByteCursor, dicom_handler: &mut H) -> (r: Result<
    usize,
    DecodeError,
>)
    ensures
        final(reader).contents() == old(reader).contents(),
        final(dicom_handler).received().len() >= old(dicom_handler).received().len(),
        final(dicom_handler).received().subrange(0, old(dicom_handler).received().len() as int)
            == old(dicom_handler).received(),
        delivered(
            parsed_events(old(reader).contents()).0,
            final(dicom_handler).received().skip(old(dicom_handler).received().len() as int),
            0,
        ),
        match parsed_events(old(reader).contents()).1 {
            Ok(_) => r == Ok::<usize, DecodeError>(
                parsed_events(old(reader).contents()).0.len() as usize,
            ),
            Err(e) => r == Err::<usize, DecodeError>(e),
        },
{
    skip_preamble(reader);
    let limit_pos = reader.len();
    let mut events: Vec<TagEvent> = Vec::new();
    let outcome = parse_tags(reader, TransferSyntax::default(), limit_pos, &mut events);
    let ghost recorded = events_view(events@);
    proof {
        let first = seq![Frame { limit: limit_pos, parent: 0, syntax: default_syntax() }];
        assert(frames_wf(first, Seq::empty())) by {
            assert forall|i: int| 0 <= i < first.len() implies #[trigger] may_parent(
                Seq::empty(),
                first[i].parent as int,
            ) by {
                assert(first[i].parent == 0);
            }
        }
        lemma_walk_wf(old(reader).contents(), body_start(old(reader).contents()), first, Seq::empty());
    }
    let count = events.len();
    let ghost before = dicom_handler.received();
    let mut handles: Vec<usize> = Vec::new();
    handles.push(0);
    proof {
        assert(dicom_handler.received().skip(before.len() as int) =~= Seq::<HandlerCall>::empty());
        assert(recorded.take(0) =~= Seq::<TagEventView>::empty());
    }
    for event in it: events
        invariant
            events_wf(recorded),
            recorded == events_view(it.seq()),
            before == old(dicom_handler).received(),
            handles.len() == it.index() + 1,
            handles@[0] == 0,
            dicom_handler.received().len() == before.len() + it.index(),
            dicom_handler.received().subrange(0, before.len() as int) == before,
            forall|j: int|
                0 <= j < it.index() ==> handles@[j + 1] == (#[trigger] dicom_handler.received()[before.len()
                    + j]).2,
            delivered(
                recorded.take(it.index() as int),
                dicom_handler.received().skip(before.len() as int),
                0,
            ),
    {
        let ghost k = it.index() as int;
        let ghost calls = dicom_handler.received().skip(before.len() as int);
        let ghost done = recorded.take(k);
        proof {
            assert(event == it.seq()[k]);
            assert(recorded[k] == it.seq()[k]@);
            assert(recorded[k].parent <= k);
            if recorded[k].parent > 0 {
                let p = recorded[k].parent - 1;
                assert(handles@[p + 1] == dicom_handler.received()[before.len() + p].2);
                assert(calls[p] == dicom_handler.received()[before.len() + p]);
            }
        }
        let parent = handles[event.parent];
        let ghost tag_view = event.tag@;
        let child = dicom_handler.handle_tag(parent, event.tag);
        handles.push(child);
        proof {
            let now = dicom_handler.received();
            let calls_now = now.skip(before.len() as int);
            let call = (parent, tag_view, child);
            assert(calls_now =~= calls.push(call));
            assert(now.subrange(0, before.len() as int) =~= before);
            let next = recorded.take(k + 1);
            assert forall|j: int| 0 <= j < next.len() implies {
                &&& (#[trigger] calls_now[j]).1 == next[j].tag
                &&& calls_now[j].0 == if next[j].parent == 0 {
                    0
                } else {
                    calls_now[next[j].parent - 1].2
                }
            } by {
                assert(next[j] == recorded[j]);
                assert(recorded[j].parent <= j);
                if j < k {
                    assert(done[j] == recorded[j]);
                    assert(calls_now[j] == calls[j]);
                    if recorded[j].parent > 0 {
                        assert(calls_now[recorded[j].parent - 1] == calls[recorded[j].parent - 1]);
                    }
                } else {
                    if recorded[j].parent > 0 {
                        assert(calls_now[recorded[j].parent - 1] == calls[recorded[j].parent - 1]);
                    }
                }
            }
            assert forall|j: int| 0 <= j < k + 1 implies handles@[j + 1] == (
            #[trigger] now[before.len() + j]).2 by {
                assert(now[before.len() + j] == calls_now[j]);
            }
        }
    }
    proof {
        assert(recorded.take(recorded.len() as int) == recorded);
    }
    match outcome {
        Ok(()) => Ok(count),
        Err(e) => Err(e),
    }
}

/// Decoding a stream yields a tree, also when it ends on an error: every
/// element hangs under the root or under a sequence or item decoded before
/// it, so any other element (a Sequence Delimitation among them) never has
/// children.
pub proof fn lemma_parsed_events_form_tree(bytes: Seq<u8>)
    requires
        bytes.len() <= usize::MAX,
    ensures
        events_wf(parsed_events(bytes).0),
{
    let first = seq![Frame { limit: bytes.len() as usize, parent: 0, syntax: default_syntax() }];
    assert(frames_wf(first, Seq::empty())) by {
        assert forall|i: int| 0 <= i < first.len() implies #[trigger] may_parent(
            Seq::empty(),
            first[i].parent as int,
        ) by {
            assert(first[i].parent == 0);
        }
    }
    lemma_walk_wf(bytes, body_start(bytes), first, Seq::empty());
}

/// A level whose limit is the offset just past its first element ends right
/// after that element, even when more bytes follow: the element is recorded
/// under the level's parent, is not descended into, and the enclosing level
/// resumes at that offset; alone, the level stops there. A Transfer Syntax UID
/// whose value is not text is fatal before it is recorded.
#[verifier::rlimit(100)]
pub proof fn lemma_limit_ends_level(
    bytes: Seq<u8>,
    pos: int,
    outer: Seq<Frame>,
    events: Seq<TagEventView>,
    parent: usize,
    syntax: TransferSyntax,
)
    requires
        0 <= pos,
        bytes.len() <= usize::MAX,
        element_at(bytes, pos, syntax) is Ok,
    ensures
        element_at(bytes, pos, syntax) matches Ok((tag, end)) ==> match syntax_change(tag) {
            Ok(_) => {
                &&& walk(bytes, pos, outer.push(Frame { limit: end as usize, parent, syntax }), events)
                    == walk(bytes, end, outer, events.push(TagEventView { parent, tag }))
                &&& walk_from(bytes, pos, syntax, end as usize) == (
                    seq![TagEventView { parent: 0, tag }],
                    Ok::<int, DecodeError>(end),
                )
            },
            Err(e) => {
                &&& walk(bytes, pos, outer.push(Frame { limit: end as usize, parent, syntax }), events)
                    == (events, Err::<int, DecodeError>(e))
                &&& walk_from(bytes, pos, syntax, end as usize) == (
                    Seq::<TagEventView>::empty(),
                    Err::<int, DecodeError>(e),
                )
            },
        },
{
    lemma_element_bounds(bytes, pos, syntax);
    if let Ok((tag, end)) = element_at(bytes, pos, syntax) {
        assert(pos + 8 <= end <= bytes.len());
        let recorded = events.push(TagEventView { parent, tag });
        let top = Frame { limit: end as usize, parent, syntax };
        assert(top.limit as int == end);
        let stack = outer.push(top);
        assert(stack.last() == top);
        assert(stack.drop_last() == outer);
        let first = Frame { limit: end as usize, parent: 0, syntax };
        let single = seq![first];
        assert(single.last() == first);
        assert(single.drop_last() == Seq::<Frame>::empty());
        if syntax_change(tag) is Ok {
            assert(walk(bytes, pos, stack, events) == walk(bytes, end, outer, recorded));
            let only = Seq::<TagEventView>::empty().push(TagEventView { parent: 0, tag });
            assert(only == seq![TagEventView { parent: 0, tag }]);
            assert(walk(bytes, pos, single, Seq::empty()) == walk(bytes, end, Seq::empty(), only));
        }
    }
}

/// An element of the meta group (its first two bytes, little endian, are
/// `0x0002`) reaches the record exactly as it decodes under explicit VR
/// little endian, whatever the ambient syntax of its level.
pub proof fn lemma_meta_group_recorded_explicit_le(
    bytes: Seq<u8>,
    pos: int,
    stack: Seq<Frame>,
    events: Seq<TagEventView>,
)
    requires
        0 <= pos,
        pos + 2 <= bytes.len(),
        bytes[pos] == 0x02,
        bytes[pos + 1] == 0x00,
        stack.len() > 0,
        pos < stack.last().limit,
        element_at(bytes, pos, default_syntax()) matches Ok((tag, _)) && syntax_change(tag) is Ok,
    ensures
        element_at(bytes, pos, default_syntax()) matches Ok((tag, _)) ==> {
            &&& walk(bytes, pos, stack, events).0.len() > events.len()
            &&& walk(bytes, pos, stack, events).0[events.len() as int] == TagEventView {
                parent: stack.last().parent,
                tag,
            }
            &&& tag.syntax == default_syntax()
        },
{
    lemma_meta_group_is_explicit_le(bytes, pos, stack.last().syntax);
    let top = stack.last();
    if let Ok((tag, end)) = element_at(bytes, pos, default_syntax()) {
        lemma_element_bounds(bytes, pos, top.syntax);
        let recorded = events.push(TagEventView { parent: top.parent, tag });
        let syntax = match syntax_change(tag) {
            Ok(Some(s)) => s,
            _ => top.syntax,
        };
        let level = stack.drop_last().push(Frame { syntax, ..top });
        if end >= top.limit || closes_level(tag) {
            lemma_walk_extends(bytes, end, stack.drop_last(), recorded);
        } else if opens_level(tag) {
            if let Ok(limit) = inner_limit(bytes, end, tag.marker.value_length) {
                lemma_walk_extends(
                    bytes,
                    end,
                    level.push(Frame { limit: limit as usize, parent: recorded.len() as usize, syntax }),
                    recorded,
                );
            }
        } else {
            lemma_walk_extends(bytes, end, level, recorded);
        }
        assert(recorded[events.len() as int] == TagEventView { parent: top.parent, tag });
    }
}

/// The nodes of a container that has received `events` in order, each
/// under its recorded parent.
pub open spec fn tree_of(events: Seq<TagEventView>) -> Seq<DicomNodeView>
    decreases events.len(),
{
    if events.len() == 0 {
        seq![DicomNodeView { tag: None, children: Seq::empty() }]
    } else {
        with_child(tree_of(events.drop_last()), events.last().parent as int, events.last().tag)
    }
}

/// Dropping the last event keeps the events well formed.
proof fn lemma_prefix_wf(events: Seq<TagEventView>)
    requires
        events_wf(events),
        events.len() > 0,
    ensures
        events_wf(events.drop_last()),
{
    let prefix = events.drop_last();
    assert forall|k: int| 0 <= k < prefix.len() implies #[trigger] prefix[k].parent <= k
        && may_parent(prefix, prefix[k].parent as int) by {
        assert(prefix[k] == events[k]);
        assert(events[k].parent <= k && may_parent(events, events[k].parent as int));
    }
}

/// The tree has one node per event, plus the root.
pub proof fn lemma_tree_len(events: Seq<TagEventView>)
    ensures
        tree_of(events).len() == events.len() + 1,
    decreases events.len(),
{
    if events.len() > 0 {
        lemma_tree_len(events.drop_last());
    }
}

/// In the tree of well-formed events only sequences and items have children:
/// a delimitation or any other element is always a leaf.
pub proof fn lemma_only_levels_have_children(events: Seq<TagEventView>)
    requires
        events_wf(events),
    ensures
        forall|i: int|
            1 <= i < tree_of(events).len() && #[trigger] tree_of(events)[i].children.len() > 0
                ==> opens_level(events[i - 1].tag),
    decreases events.len(),
{
    lemma_tree_len(events);
    if events.len() > 0 {
        let prefix = events.drop_last();
        lemma_prefix_wf(events);
        lemma_only_levels_have_children(prefix);
        lemma_tree_len(prefix);
        let last = events.len() - 1;
        assert(events[last].parent <= last && may_parent(events, events[last].parent as int));
        assert forall|i: int|
            1 <= i < tree_of(events).len() && #[trigger] tree_of(events)[i].children.len()
                > 0 implies opens_level(events[i - 1].tag) by {
            if i < tree_of(prefix).len() && i != events.last().parent {
                assert(tree_of(events)[i] == tree_of(prefix)[i]);
                assert(prefix[i - 1] == events[i - 1]);
            }
        }
    }
}

/// The node indices, in stream order, of the events recorded under node
/// `parent`.
pub open spec fn children_in(events: Seq<TagEventView>, parent: int) -> Seq<usize>
    decreases events.len(),
{
    if events.len() == 0 {
        Seq::empty()
    } else {
        let before = children_in(events.drop_last(), parent);
        if events.last().parent == parent {
            before.push(events.len() as usize)
        } else {
            before
        }
    }
}

/// Well-formed events have no children under nodes not recorded yet.
proof fn lemma_no_children_ahead(events: Seq<TagEventView>, parent: int)
    requires
        events_wf(events),
        parent >= events.len(),
    ensures
        children_in(events, parent) == Seq::<usize>::empty(),
    decreases events.len(),
{
    if events.len() > 0 {
        let prefix = events.drop_last();
        lemma_prefix_wf(events);
        assert(events[events.len() - 1].parent <= events.len() - 1);
        lemma_no_children_ahead(prefix, parent);
    }
}

/// In the tree of well-formed events, the children of each node are exactly
/// the elements recorded under it, in stream order.
pub proof fn lemma_children_are_recorded(events: Seq<TagEventView>)
    requires
        events_wf(events),
        events.len() < usize::MAX,
    ensures
        forall|i: int|
            0 <= i < tree_of(events).len() ==> #[trigger] tree_of(events)[i].children
                == children_in(events, i),
    decreases events.len(),
{
    lemma_tree_len(events);
    if events.len() > 0 {
        let prefix = events.drop_last();
        lemma_prefix_wf(events);
        lemma_children_are_recorded(prefix);
        lemma_tree_len(prefix);
        let last = events.len() - 1;
        assert(events[last].parent <= last);
        assert forall|i: int| 0 <= i < tree_of(events).len() implies #[trigger] tree_of(
            events,
        )[i].children == children_in(events, i) by {
            if i == events.len() {
                lemma_no_children_ahead(prefix, i);
            } else {
                assert(tree_of(prefix)[i].children == children_in(prefix, i));
            }
        }
    }
}

/// Decodes a whole stream into a tree container: node `0` is the root and
/// node `k + 1` holds the `k`-th element, listed among its parent's children.
pub fn load_container(reader: &mut ByteCursor) -> (r: Result<DicomContainer, DecodeError>)
    ensures
        final(reader).contents() == old(reader).contents(),
        match parsed_events(old(reader).contents()).1 {
            Ok(_) => r matches Ok(c) && c@ == tree_of(parsed_events(old(reader).contents()).0),
            Err(e) => r matches Err(f) && f == e,
        },
{
    skip_preamble(reader);
    let limit_pos = reader.len();
    let mut events: Vec<TagEvent> = Vec::new();
    match parse_tags(reader, TransferSyntax::default(), limit_pos, &mut events) {
        Ok(()) => {},
        Err(e) => return Err(e),
    }
    let ghost recorded = events_view(events@);
    let mut container = DicomContainer::new();
    proof {
        assert(recorded.take(0) == Seq::<TagEventView>::empty());
    }
    for event in it: events
        invariant
            recorded == events_view(it.seq()),
            container@ == tree_of(recorded.take(it.index() as int)),
    {
        let ghost done = recorded.take(it.index() as int);
        proof {
            assert(event == it.seq()[it.index() as int]);
            let next = recorded.take(it.index() + 1);
            assert(next.drop_last() == done);
            assert(next.last() == event@);
        }
        container.handle_tag(event.parent, event.tag);
    }
    proof {
        assert(recorded.take(recorded.len() as int) == recorded);
    }
    Ok(container)
}

/// Decoding the same bytes twice, from cursors reset to the start, builds
/// the same tree: the trees that `load_container` promises for two cursors
/// over the same bytes are equal, elements, values and parent/child links
/// alike.
pub proof fn lemma_same_bytes_same_tree(
    first: ByteCursor,
    second: ByteCursor,
    first_tree: Seq<DicomNodeView>,
    second_tree: Seq<DicomNodeView>,
)
    requires
        first.contents() == second.contents(),
        first_tree == tree_of(parsed_events(first.contents()).0),
        second_tree == tree_of(parsed_events(second.contents()).0),
    ensures
        first_tree == second_tree,
{
}

/// Parsing the same bytes twice hands the same calls to two handlers that
/// return the same indices (two fresh handlers of the same kind): the same
/// parent indices, elements, VRs, values and lengths, in the same order.
pub proof fn lemma_same_bytes_same_calls(
    first: Seq<u8>,
    second: Seq<u8>,
    first_calls: Seq<HandlerCall>,
    second_calls: Seq<HandlerCall>,
)
    requires
        first == second,
        first.len() <= usize::MAX,
        delivered(parsed_events(first).0, first_calls, 0),
        delivered(parsed_events(second).0, second_calls, 0),
        forall|k: int| 0 <= k < first_calls.len() ==> (#[trigger] first_calls[k]).2 == second_calls[k].2,
    ensures
        first_calls == second_calls,
{
    let events = parsed_events(first).0;
    lemma_parsed_events_form_tree(first);
    assert forall|k: int| 0 <= k < first_calls.len() implies #[trigger] first_calls[k] == second_calls[k] by {
        assert(events[k].parent <= k);
        if events[k].parent > 0 {
            let p = events[k].parent - 1;
            assert(first_calls[p].2 == second_calls[p].2);
        }
    }
    assert(first_calls =~= second_calls);
}

} // verus!
