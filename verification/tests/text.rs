use nomad::neovim::buffer_edited::Point;
use nomad::text::points::{offset_of_point, point_of_offset, try_offset_of_point, try_point_of_offset};
use nomad::ids::ActorId;
use nomad::text::buffer::{AppliedEdit, AppliedEditQueue, Buffer};
use nomad::text::buffer_state::{AppliedDeletion, BufferInner};
use nomad::text::replacement::Replacement;

fn text_of(state: &BufferInner) -> String {
    state.rope().to_string()
}

#[test]
fn from_text_holds_the_text() {
    let state = BufferInner::from_text("hello", 1);
    assert_eq!(text_of(&state), "hello");
    assert_eq!(state.byte_len(), 5);
    assert_eq!(state.id(), 1);
}

#[test]
fn edit_replaces_the_range() {
    let mut state = BufferInner::from_text("hello", 1);
    let (del, ins) = state.edit(&Replacement::new(1, 3, "XY"));
    assert!(del.is_some());
    assert!(ins.is_some());
    assert_eq!(ins.unwrap().text, "XY");
    assert_eq!(text_of(&state), "hXYlo");
    assert_eq!(state.byte_len(), 5);
}

#[test]
fn edit_pure_insertion_makes_no_deletion() {
    let mut state = BufferInner::from_text("ab", 1);
    let (del, ins) = state.edit(&Replacement::insertion(1, "é"));
    assert!(del.is_none());
    assert!(ins.is_some());
    assert_eq!(text_of(&state), "aéb");
    assert_eq!(state.byte_len(), 4);
}

#[test]
fn edit_pure_deletion_makes_no_insertion() {
    let mut state = BufferInner::from_text("abcdef", 1);
    let (del, ins) = state.edit(&Replacement::deletion(2, 4));
    assert!(del.is_some());
    assert!(ins.is_none());
    assert_eq!(text_of(&state), "abef");
}

#[test]
fn edit_and_apply_replacement_agree() {
    let mut a = BufferInner::from_text("the quick fox", 1);
    let mut b = BufferInner::from_text("the quick fox", 2);
    let repl = Replacement::new(4, 9, "slow");
    let _ = a.edit(&repl);
    b.apply_replacement(&repl);
    assert_eq!(text_of(&a), "the slow fox");
    assert_eq!(text_of(&a), text_of(&b));
    assert_eq!(a.byte_len(), b.byte_len());
}

#[test]
fn apply_resolved_needs_both_ends() {
    let mut state = BufferInner::from_text("abc", 1);
    let repl = Replacement::new((), (), "Z");
    state.apply_resolved(&repl, Some(1), None);
    assert_eq!(text_of(&state), "abc");
    state.apply_resolved(&repl, Some(1), Some(2));
    assert_eq!(text_of(&state), "aZc");
}

#[test]
fn remote_insertion_lands_where_the_replica_says() {
    let replica1 = cola::Replica::new(1, 4);
    let replica2 = replica1.fork(2);
    let mut peer1 = BufferInner::new(crop::Rope::from("abcd"), replica1);
    let mut peer2 = BufferInner::new(crop::Rope::from("abcd"), replica2);
    let insertion = peer1.insert(2, "XY");
    assert_eq!(text_of(&peer1), "abXYcd");
    let res = peer2.apply_insertion(&insertion, "XY");
    assert!(matches!(res, Ok(Some(2))));
    assert_eq!(text_of(&peer2), "abXYcd");
    // Integrating it a second time does nothing.
    let again = peer2.apply_insertion(&insertion, "XY");
    assert!(matches!(again, Ok(None)));
    assert_eq!(text_of(&peer2), "abXYcd");
}

#[test]
fn remote_deletion_removes_the_ranges() {
    let replica1 = cola::Replica::new(1, 4);
    let replica2 = replica1.fork(2);
    let mut peer1 = BufferInner::new(crop::Rope::from("abcd"), replica1);
    let mut peer2 = BufferInner::new(crop::Rope::from("abcd"), replica2);
    let deletion = peer1.delete(1, 3);
    assert_eq!(text_of(&peer1), "ad");
    // Concurrently, peer 2 inserts between the 'b' and the 'c'.
    let _ = peer2.insert(2, "Z");
    let ranges = match peer2.apply_deletion(&deletion) {
        Ok(ranges) => ranges,
        Err(_) => panic!("the ranges lie on character boundaries"),
    };
    assert_eq!(ranges, vec![1..2, 3..4]);
    assert_eq!(text_of(&peer2), "aZd");
    assert_eq!(peer2.byte_len(), 3);
}

#[test]
fn remote_insertion_inside_a_character_is_refused() {
    let mut replica1 = cola::Replica::new(1, 3);
    let replica2 = replica1.fork(2);
    let mut peer2 = BufferInner::new(crop::Rope::from("éa"), replica2);
    let insertion = replica1.inserted(1, 1);
    let res = peer2.apply_insertion(&insertion, "x");
    match res {
        Err(e) => assert_eq!(e.offset, 1),
        Ok(_) => panic!("offset 1 lies inside 'é'"),
    }
    assert_eq!(text_of(&peer2), "éa");
}

#[test]
fn remote_deletion_inside_a_character_is_refused() {
    let mut replica1 = cola::Replica::new(1, 3);
    let replica2 = replica1.fork(2);
    let mut peer2 = BufferInner::new(crop::Rope::from("éa"), replica2);
    let deletion = replica1.deleted(1..3);
    match peer2.apply_deletion(&deletion) {
        Err(e) => assert_eq!(e.offset, 1),
        Ok(_) => panic!("offset 1 lies inside 'é'"),
    }
    assert_eq!(text_of(&peer2), "éa");
}

#[test]
fn snapshot_copies_the_text() {
    let mut state = BufferInner::from_text("abc", 7);
    let snapshot = state.snapshot();
    let _ = state.edit(&Replacement::insertion(3, "d"));
    assert_eq!(snapshot.text.to_string(), "abc");
    assert_eq!(snapshot.replica.id(), 7);
    assert_eq!(text_of(&state), "abcd");
}

#[test]
fn queue_is_first_in_first_out() {
    let mut replica = cola::Replica::new(1, 2);
    let first = replica.deleted(0..1);
    let second = replica.deleted(0..1);
    let mut queue = AppliedEditQueue::new();
    queue.push_back(AppliedEdit::deletion(AppliedDeletion { deletion: first.clone() }, ActorId { id: 1 }));
    queue.push_back(AppliedEdit::deletion(AppliedDeletion { deletion: second }, ActorId { id: 2 }));
    assert_eq!(queue.len(), 2);
    match queue.pop_front() {
        Some(AppliedEdit::Deletion(del, actor)) => {
            assert_eq!(actor, ActorId { id: 1 });
            assert_eq!(del.deletion, first);
        },
        _ => panic!("expected the first deletion"),
    }
    assert!(matches!(queue.pop_front(), Some(AppliedEdit::Deletion(_, ActorId { id: 2 }))));
    assert!(queue.pop_front().is_none());
}

#[test]
fn echo_of_an_applied_edit_is_broadcast_not_reapplied() {
    let mut replica = cola::Replica::new(1, 1);
    let deletion = replica.deleted(0..1);
    let mut buffer = Buffer::new(BufferInner::from_text("abc", 1));
    buffer.push_applied(AppliedEdit::deletion(AppliedDeletion { deletion }, ActorId { id: 9 }));
    assert_eq!(buffer.pending_echoes(), 1);
    let broadcast = buffer.on_edit(&Replacement::new(0, 1, "Q"));
    assert_eq!(buffer.pending_echoes(), 0);
    assert_eq!(broadcast.len(), 1);
    assert!(matches!(broadcast[0], AppliedEdit::Deletion(_, ActorId { id: 9 })));
    assert_eq!(buffer.state_ref().rope().to_string(), "abc");
}

#[test]
fn edit_from_the_user_is_applied_and_broadcast() {
    let mut buffer = Buffer::new(BufferInner::from_text("abc", 1));
    let broadcast = buffer.on_edit(&Replacement::new(0, 1, "Q"));
    assert_eq!(broadcast.len(), 2);
    assert!(matches!(broadcast[0], AppliedEdit::Deletion(_, ActorId { id: 0 })));
    match &broadcast[1] {
        AppliedEdit::Insertion(ins, actor) => {
            assert_eq!(ins.text, "Q");
            assert!(actor.is_unknown());
        },
        _ => panic!("expected an insertion"),
    }
    assert_eq!(buffer.state_ref().rope().to_string(), "Qbc");
}

#[test]
fn empty_edit_from_the_user_broadcasts_nothing() {
    let mut buffer = Buffer::new(BufferInner::from_text("abc", 1));
    let broadcast = buffer.on_edit(&Replacement::new(2, 2, ""));
    assert!(broadcast.is_empty());
    assert_eq!(buffer.state_ref().rope().to_string(), "abc");
}

#[test]
fn local_edit_applies_to_the_state() {
    let mut buffer = Buffer::new(BufferInner::from_text("abc", 3));
    buffer.edit(&Replacement::new(1, 2, "ZZ"), ActorId::unknown());
    assert_eq!(buffer.state_ref().rope().to_string(), "aZZc");
    let snapshot = buffer.snapshot();
    assert_eq!(snapshot.text.to_string(), "aZZc");
}

#[test]
fn offsets_and_points_convert_both_ways() {
    let rope = crop::Rope::from("foo\nbar\r\nbaz");
    let at = |line_idx, byte_offset| Point { line_idx, byte_offset };
    assert_eq!(point_of_offset(&rope, 0), at(0, 0));
    assert_eq!(point_of_offset(&rope, 3), at(0, 3));
    assert_eq!(point_of_offset(&rope, 4), at(1, 0));
    assert_eq!(point_of_offset(&rope, 8), at(1, 4));
    assert_eq!(point_of_offset(&rope, 12), at(2, 3));
    assert_eq!(offset_of_point(&rope, at(1, 2)), 6);
    assert_eq!(offset_of_point(&rope, at(2, 0)), 9);
    for offset in 0..=12 {
        assert_eq!(offset_of_point(&rope, point_of_offset(&rope, offset)), offset);
    }
}

#[test]
fn checked_constructor_refuses_a_replica_out_of_sync() {
    assert!(BufferInner::try_new(crop::Rope::from("abc"), cola::Replica::new(1, 4)).is_none());
    let state = BufferInner::try_new(crop::Rope::from("abc"), cola::Replica::new(1, 3))
        .expect("in sync");
    assert_eq!(text_of(&state), "abc");
    assert_eq!(state.id(), 1);
}

#[test]
fn checked_remote_insertion_applies_when_it_fits() {
    let replica1 = cola::Replica::new(1, 4);
    let replica2 = replica1.fork(2);
    let mut peer1 = BufferInner::new(crop::Rope::from("abcd"), replica1);
    let mut peer2 = BufferInner::new(crop::Rope::from("abcd"), replica2);
    let insertion = peer1.insert(1, "Q");
    assert!(matches!(peer2.try_apply_insertion(&insertion, "Q"), Some(Ok(Some(1)))));
    assert_eq!(text_of(&peer2), "aQbcd");
}

#[test]
fn buffer_applies_remote_edits_and_expects_their_echoes() {
    let replica1 = cola::Replica::new(1, 4);
    let replica2 = replica1.fork(2);
    let mut peer1 = BufferInner::new(crop::Rope::from("abcd"), replica1);
    let mut buffer = Buffer::new(BufferInner::new(crop::Rope::from("abcd"), replica2));
    let peer = ActorId { id: 1 };
    let insertion = peer1.insert(4, "!");
    let res = buffer.try_apply_remote_insertion(&insertion, "!", peer);
    assert!(matches!(res, Some(Ok(Some(4)))));
    assert_eq!(buffer.pending_echoes(), 1);
    let deletion = peer1.delete(0, 2);
    let ranges = buffer.apply_remote_deletion(&deletion, peer).ok().expect("on boundaries");
    assert_eq!(ranges, vec![0..2]);
    assert_eq!(buffer.state_ref().rope().to_string(), "cd!");
    assert_eq!(buffer.pending_echoes(), 2);
    // The echo of the insertion comes back first and is not applied again.
    let broadcast = buffer.on_edit(&Replacement::new(4, 4, "!"));
    assert!(matches!(broadcast[0], AppliedEdit::Insertion(_, ActorId { id: 1 })));
    assert_eq!(buffer.state_ref().rope().to_string(), "cd!");
    // An insertion integrated a second time goes nowhere and expects no echo.
    let again = buffer.apply_remote_insertion(&insertion, "!", peer);
    assert!(matches!(again, Ok(None)));
    assert_eq!(buffer.pending_echoes(), 1);
}

#[test]
fn snapshots_fork_the_replica_under_the_same_id() {
    let state = BufferInner::from_text("héllo", 7);
    let snapshot = state.snapshot();
    assert_eq!(snapshot.text.to_string(), "héllo");
    assert_eq!(snapshot.replica.id(), 7);
    assert_eq!(snapshot.replica.len(), "héllo".len());
}

#[test]
fn points_are_converted_only_on_character_boundaries() {
    let rope = crop::Rope::from("é\nab");
    assert_eq!(try_point_of_offset(&rope, 1), None);
    assert_eq!(try_point_of_offset(&rope, 9), None);
    assert_eq!(try_point_of_offset(&rope, 3), Some(Point { line_idx: 1, byte_offset: 0 }));
    assert_eq!(try_offset_of_point(&rope, Point { line_idx: 1, byte_offset: 2 }), Some(5));
    assert_eq!(try_offset_of_point(&rope, Point { line_idx: 2, byte_offset: 0 }), None);
}

#[test]
fn local_edits_are_recorded_where_they_happen() {
    // A peer that integrates the recorded edits ends up with the same text.
    let replica1 = cola::Replica::new(1, 4);
    let replica2 = replica1.fork(2);
    let mut peer1 = BufferInner::new(crop::Rope::from("abcd"), replica1);
    let mut peer2 = BufferInner::new(crop::Rope::from("abcd"), replica2);
    let (del, ins) = peer1.edit(&Replacement::new(1, 3, "XYZ"));
    let del = del.expect("the range is not empty");
    let ins = ins.expect("the text is not empty");
    let _ = peer2.apply_deletion(&del.deletion).ok().expect("on boundaries");
    let at = peer2.apply_insertion(&ins.insertion, &ins.text);
    assert!(matches!(at, Ok(Some(1))));
    assert_eq!(text_of(&peer1), "aXYZd");
    assert_eq!(text_of(&peer2), "aXYZd");
}
