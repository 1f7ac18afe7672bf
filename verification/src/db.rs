//! The correspondence store: a capped, per-conversation sequence of records,
//! each tying a Matrix event id to the Telegram `(chat id, message id)` pair
//! it was relayed as. Both relay directions read and append to it.

use vstd::prelude::*;

use crate::BRIDGED_MESSAGES_CAP;

verus! {

/// A persisted fact that one Matrix event and one Telegram message carry the
/// same relayed content. Created once per successful relay, never mutated.
pub struct BridgedMessage {
    pub matrix_id: String,
    pub telegram_id: (i64, i32),
}

/// Whether record `m` carries the Matrix event id `id`.
pub open spec fn has_source(m: BridgedMessage, id: Seq<char>) -> bool {
    m.matrix_id@ == id
}

/// Whether record `m` carries the Telegram pair `(chat_id, message_id)`.
pub open spec fn has_dest(m: BridgedMessage, chat_id: i64, message_id: i32) -> bool {
    m.telegram_id.0 == chat_id && m.telegram_id.1 == message_id
}

/// The destination pair recorded for `id`: the first record in stored order
/// whose Matrix id equals `id`, or `None` when no record matches.
pub open spec fn first_dest_for_source(s: Seq<BridgedMessage>, id: Seq<char>) -> Option<
    (i64, i32),
>
    decreases s.len(),
{
    if s.len() == 0 {
        None
    } else if has_source(s[0], id) {
        Some(s[0].telegram_id)
    } else {
        first_dest_for_source(s.drop_first(), id)
    }
}

/// The Matrix event id recorded for `(chat_id, message_id)`: the first record
/// in stored order whose Telegram pair equals it, or `None`.
pub open spec fn first_source_for_dest(
    s: Seq<BridgedMessage>,
    chat_id: i64,
    message_id: i32,
) -> Option<Seq<char>>
    decreases s.len(),
{
    if s.len() == 0 {
        None
    } else if has_dest(s[0], chat_id, message_id) {
        Some(s[0].matrix_id@)
    } else {
        first_source_for_dest(s.drop_first(), chat_id, message_id)
    }
}

/// The window a record sequence is clipped to: the most recent
/// `BRIDGED_MESSAGES_CAP` records, in their original relative order.
pub open spec fn capped_window(s: Seq<BridgedMessage>) -> Seq<BridgedMessage> {
    if s.len() <= BRIDGED_MESSAGES_CAP {
        s
    } else {
        s.skip(s.len() - BRIDGED_MESSAGES_CAP)
    }
}

/// What a record sequence becomes when one more record is appended under the
/// capacity rule: the record goes last and the oldest is evicted if the cap
/// would be exceeded.
pub open spec fn appended_capped(s: Seq<BridgedMessage>, r: BridgedMessage) -> Seq<
    BridgedMessage,
> {
    capped_window(s.push(r))
}

/// Append `rec` to `records`, evicting the oldest records while more than
/// `BRIDGED_MESSAGES_CAP` are held.
pub fn append_capped(records: &mut Vec<BridgedMessage>, rec: BridgedMessage)
    ensures
        final(records)@ == appended_capped(old(records)@, rec),
        final(records)@.len() <= BRIDGED_MESSAGES_CAP,
{
    let ghost pushed: Seq<BridgedMessage> = old(records)@.push(rec);
    records.push(rec);
    proof {
        assert(pushed.skip(0) =~= pushed);
    }
    while records.len() > BRIDGED_MESSAGES_CAP
        invariant
            records@.len() <= pushed.len(),
            records@ == pushed.skip(pushed.len() - records@.len()),
            records@.len() >= BRIDGED_MESSAGES_CAP || records@.len() == pushed.len(),
        decreases records@.len(),
    {
        let ghost before: Seq<BridgedMessage> = records@;
        let ghost k: int = pushed.len() - before.len();
        records.remove(0);
        proof {
            before.remove_ensures(0);
            assert(records@ =~= pushed.skip(k + 1));
        }
    }
    proof {
        assert(records@ =~= appended_capped(old(records)@, rec));
    }
}

/// Scan `bms` for the first record carrying Matrix event id `id` and return
/// its Telegram pair.
pub fn scan_dest_for_source(bms: &Vec<BridgedMessage>, id: &String) -> (r: Option<(i64, i32)>)
    ensures
        r == first_dest_for_source(bms@, id@),
{
    let mut i: usize = 0;
    proof {
        assert(bms@.skip(0) =~= bms@);
    }
    while i < bms.len()
        invariant
            i <= bms@.len(),
            first_dest_for_source(bms@, id@) == first_dest_for_source(bms@.skip(i as int), id@),
        decreases bms@.len() - i,
    {
        if bms[i].matrix_id == *id {
            proof {
                assert(bms@.skip(i as int)[0] == bms@[i as int]);
            }
            return Some(bms[i].telegram_id);
        }
        proof {
            assert(bms@.skip(i as int).drop_first() =~= bms@.skip(i + 1));
            assert(bms@.skip(i as int)[0] == bms@[i as int]);
        }
        i = i + 1;
    }
    None
}

/// Scan `bms` for the first record carrying the Telegram pair
/// `(chat_id, message_id)` and return its Matrix event id.
pub fn scan_source_for_dest(bms: &Vec<BridgedMessage>, chat_id: i64, message_id: i32) -> (r:
    Option<String>)
    ensures
        match r {
            Some(id) => first_source_for_dest(bms@, chat_id, message_id) == Some(id@),
            None => first_source_for_dest(bms@, chat_id, message_id) is None,
        },
{
    let mut i: usize = 0;
    proof {
        assert(bms@.skip(0) =~= bms@);
    }
    while i < bms.len()
        invariant
            i <= bms@.len(),
            first_source_for_dest(bms@, chat_id, message_id) == first_source_for_dest(
                bms@.skip(i as int),
                chat_id,
                message_id,
            ),
        decreases bms@.len() - i,
    {
        if bms[i].telegram_id.0 == chat_id && bms[i].telegram_id.1 == message_id {
            proof {
                assert(bms@.skip(i as int)[0] == bms@[i as int]);
            }
            return Some(bms[i].matrix_id.clone());
        }
        proof {
            assert(bms@.skip(i as int).drop_first() =~= bms@.skip(i + 1));
            assert(bms@.skip(i as int)[0] == bms@[i as int]);
        }
        i = i + 1;
    }
    None
}

/// The record sequence held for `room`: the first entry in `s` whose key
/// equals `room`, or `None` when the conversation has no entry yet.
spec fn room_slot(s: Seq<(String, Vec<BridgedMessage>)>, room: Seq<char>) -> Option<
    Seq<BridgedMessage>,
>
    decreases s.len(),
{
    if s.len() == 0 {
        None
    } else if s[0].0@ == room {
        Some(s[0].1@)
    } else {
        room_slot(s.drop_first(), room)
    }
}

/// The correspondence store: one capped record sequence per bridged
/// conversation, keyed by the Matrix room id. Models the per-conversation
/// durable files the bridge keeps; all access is serialized through one
/// value of this type.
pub struct CorrespondenceStore {
    rooms: Vec<(String, Vec<BridgedMessage>)>,
}

impl CorrespondenceStore {
    /// The records stored for `room`, oldest first; empty when the
    /// conversation has no entry.
    pub closed spec fn records_for(self, room: Seq<char>) -> Seq<BridgedMessage> {
        match room_slot(self.rooms@, room) {
            Some(recs) => recs,
            None => Seq::empty(),
        }
    }

    /// Well-formedness: conversation keys are unique and no conversation
    /// holds more than `BRIDGED_MESSAGES_CAP` records.
    pub closed spec fn wf(self) -> bool {
        &&& forall|i: int, j: int|
            0 <= i < j < self.rooms@.len() ==> (#[trigger] self.rooms@[i]).0@ != (
            #[trigger] self.rooms@[j]).0@
        &&& forall|i: int|
            0 <= i < self.rooms@.len() ==> (#[trigger] self.rooms@[i]).1@.len()
                <= BRIDGED_MESSAGES_CAP
    }

    /// An empty store: no conversation holds any record.
    pub fn new() -> (s: Self)
        ensures
            s.wf(),
            forall|room: Seq<char>| #[trigger] s.records_for(room) == Seq::<BridgedMessage>::empty(),
    {
        CorrespondenceStore { rooms: Vec::new() }
    }

    /// Append `rec` to the sequence held for `room` (creating the entry when
    /// absent), evicting the oldest record when the cap would be exceeded.
    /// Other conversations are untouched.
    #[verifier::loop_isolation(false)]
    pub fn append(&mut self, room: &String, rec: BridgedMessage)
        requires
            old(self).wf(),
        ensures
            final(self).wf(),
            final(self).records_for(room@) == appended_capped(
                old(self).records_for(room@),
                rec,
            ),
            forall|r: Seq<char>|
                r != room@ ==> #[trigger] final(self).records_for(r) == old(self).records_for(r),
    {
        let ghost rooms0: Seq<(String, Vec<BridgedMessage>)> = self.rooms@;
        let mut i: usize = 0;
        proof {
            assert(rooms0.skip(0) =~= rooms0);
        }
        while i < self.rooms.len()
            invariant
                self.rooms@ == rooms0,
                i <= rooms0.len(),
                forall|j: int| 0 <= j < i ==> (#[trigger] rooms0[j]).0@ != room@,
                room_slot(rooms0, room@) == room_slot(rooms0.skip(i as int), room@),
            decreases rooms0.len() - i,
        {
            if self.rooms[i].0 == *room {
                proof {
                    assert(rooms0.skip(i as int)[0] == rooms0[i as int]);
                }
                let pair = &mut self.rooms[i];
                append_capped(&mut pair.1, rec);
                proof {
                    let t = self.rooms@;
                    assert(t.len() == rooms0.len());
                    assert(t[i as int].0@ == rooms0[i as int].0@);
                    assert(t[i as int].1@ == appended_capped(rooms0[i as int].1@, rec));
                    lemma_room_slot_replaced(rooms0, t, i as int);
                    assert forall|a: int, b: int| 0 <= a < b < t.len() implies (
                    #[trigger] t[a]).0@ != (#[trigger] t[b]).0@ by {
                        assert(t[a].0@ == rooms0[a].0@);
                        assert(t[b].0@ == rooms0[b].0@);
                    }
                    assert forall|a: int| 0 <= a < t.len() implies (#[trigger] t[a]).1@.len()
                        <= BRIDGED_MESSAGES_CAP by {
                        if a != i {
                            assert(t[a] == rooms0[a]);
                        }
                    }
                }
                return ;
            }
            proof {
                assert(rooms0.skip(i as int).drop_first() =~= rooms0.skip(i + 1));
                assert(rooms0.skip(i as int)[0] == rooms0[i as int]);
            }
            i = i + 1;
        }
        proof {
            assert(rooms0.skip(rooms0.len() as int) =~= Seq::empty());
        }
        let mut recs: Vec<BridgedMessage> = Vec::new();
        recs.push(rec);
        self.rooms.push((room.clone(), recs));
        proof {
            let p = self.rooms@[rooms0.len() as int];
            lemma_room_slot_pushed(rooms0, p);
            assert(appended_capped(Seq::empty(), rec) =~= seq![rec]);
            assert(p.1@ =~= seq![rec]);
        }
    }

    /// Look up the Telegram pair recorded for Matrix event `mx_id` in `room`.
    pub fn lookup_dest_from_source(&self, room: &String, mx_id: &String) -> (r: Option<
        (i64, i32),
    >)
        ensures
            r == first_dest_for_source(self.records_for(room@), mx_id@),
    {
        match self.get_bms(room) {
            Some(bms) => scan_dest_for_source(bms, mx_id),
            None => None,
        }
    }

    /// Look up the Matrix event id recorded for the Telegram pair
    /// `(chat_id, message_id)` in `room`.
    pub fn lookup_source_from_dest(&self, room: &String, chat_id: i64, message_id: i32) -> (r:
        Option<String>)
        ensures
            match r {
                Some(id) => first_source_for_dest(self.records_for(room@), chat_id, message_id)
                    == Some(id@),
                None => first_source_for_dest(
                    self.records_for(room@),
                    chat_id,
                    message_id,
                ) is None,
            },
    {
        match self.get_bms(room) {
            Some(bms) => scan_source_for_dest(bms, chat_id, message_id),
            None => None,
        }
    }

    /// The records stored for the conversation `room`, oldest first, when the
    /// conversation has an entry.
    pub fn get_bms(&self, room: &String) -> (r: Option<&Vec<BridgedMessage>>)
        ensures
            match r {
                Some(bms) => bms@ == self.records_for(room@),
                None => self.records_for(room@) == Seq::<BridgedMessage>::empty(),
            },
    {
        let ghost rooms0: Seq<(String, Vec<BridgedMessage>)> = self.rooms@;
        let mut i: usize = 0;
        proof {
            assert(rooms0.skip(0) =~= rooms0);
        }
        while i < self.rooms.len()
            invariant
                self.rooms@ == rooms0,
                i <= rooms0.len(),
                room_slot(rooms0, room@) == room_slot(rooms0.skip(i as int), room@),
            decreases rooms0.len() - i,
        {
            if self.rooms[i].0 == *room {
                proof {
                    assert(rooms0.skip(i as int)[0] == rooms0[i as int]);
                }
                return Some(&self.rooms[i].1);
            }
            proof {
                assert(rooms0.skip(i as int).drop_first() =~= rooms0.skip(i + 1));
                assert(rooms0.skip(i as int)[0] == rooms0[i as int]);
            }
            i = i + 1;
        }
        None
    }
}

/// Record that the Matrix event `matrix_event_id` was relayed as the Telegram
/// message `telegram_event_id`: append the correspondence to the conversation
/// `matrix_chat_id`, evicting the oldest record when the cap is reached.
pub fn update_bridged_messages(
    store: &mut CorrespondenceStore,
    matrix_event_id: String,
    telegram_event_id: (i64, i32),
    matrix_chat_id: &String,
)
    requires
        old(store).wf(),
    ensures
        final(store).wf(),
        exists|rec: BridgedMessage|
            {
                &&& rec.matrix_id@ == matrix_event_id@
                &&& rec.telegram_id == telegram_event_id
                &&& final(store).records_for(matrix_chat_id@) == appended_capped(
                    old(store).records_for(matrix_chat_id@),
                    rec,
                )
            },
        forall|r: Seq<char>|
            r != matrix_chat_id@ ==> #[trigger] final(store).records_for(r) == old(
                store,
            ).records_for(r),
{
    let rec = BridgedMessage { matrix_id: matrix_event_id, telegram_id: telegram_event_id };
    store.append(matrix_chat_id, rec);
}

/// When entry `i` of `t` replaces entry `i` of `s` under the same key, and no
/// earlier entry carries that key, lookups of that key land on the new entry
/// and lookups of any other key are unchanged.
proof fn lemma_room_slot_replaced(
    s: Seq<(String, Vec<BridgedMessage>)>,
    t: Seq<(String, Vec<BridgedMessage>)>,
    i: int,
)
    requires
        0 <= i < s.len(),
        t.len() == s.len(),
        forall|j: int| 0 <= j < s.len() && j != i ==> #[trigger] t[j] == s[j],
        t[i].0@ == s[i].0@,
        forall|j: int| 0 <= j < i ==> (#[trigger] s[j]).0@ != s[i].0@,
    ensures
        room_slot(t, s[i].0@) == Some(t[i].1@),
        forall|r: Seq<char>|
            r != s[i].0@ ==> #[trigger] room_slot(t, r) == room_slot(s, r),
    decreases i,
{
    if i == 0 {
        assert forall|r: Seq<char>| r != s[0].0@ implies #[trigger] room_slot(t, r) == room_slot(
            s,
            r,
        ) by {
            assert(t.drop_first() =~= s.drop_first());
        }
    } else {
        assert(t[0] == s[0]);
        assert(s.drop_first()[i - 1] == s[i]);
        assert(t.drop_first()[i - 1] == t[i]);
        assert forall|j: int| 0 <= j < i - 1 implies (#[trigger] s.drop_first()[j]).0@
            != s.drop_first()[i - 1].0@ by {
            assert(s.drop_first()[j] == s[j + 1]);
        }
        assert forall|j: int|
            0 <= j < s.drop_first().len() && j != i - 1 implies #[trigger] t.drop_first()[j]
            == s.drop_first()[j] by {
            assert(t.drop_first()[j] == t[j + 1]);
            assert(s.drop_first()[j] == s[j + 1]);
        }
        lemma_room_slot_replaced(s.drop_first(), t.drop_first(), i - 1);
        assert(room_slot(t, s[i].0@) == Some(t[i].1@));
        assert forall|r: Seq<char>| r != s[i].0@ implies #[trigger] room_slot(t, r) == room_slot(
            s,
            r,
        ) by {
            if s[0].0@ != r {
                assert(room_slot(t, r) == room_slot(t.drop_first(), r));
                assert(room_slot(s, r) == room_slot(s.drop_first(), r));
            }
        }
    }
}

/// Pushing a fresh entry leaves lookups of every other key unchanged and
/// makes lookups of the new key land on it, provided the key was absent.
proof fn lemma_room_slot_pushed(
    s: Seq<(String, Vec<BridgedMessage>)>,
    p: (String, Vec<BridgedMessage>),
)
    requires
        forall|j: int| 0 <= j < s.len() ==> (#[trigger] s[j]).0@ != p.0@,
    ensures
        room_slot(s.push(p), p.0@) == Some(p.1@),
        forall|r: Seq<char>| r != p.0@ ==> #[trigger] room_slot(s.push(p), r) == room_slot(s, r),
    decreases s.len(),
{
    if s.len() == 0 {
        assert(s.push(p)[0] == p);
        assert forall|r: Seq<char>| r != p.0@ implies #[trigger] room_slot(s.push(p), r)
            == room_slot(s, r) by {
            assert(s.push(p)[0] == p);
            assert(s.push(p).drop_first() =~= Seq::<(String, Vec<BridgedMessage>)>::empty());
            assert(room_slot(Seq::<(String, Vec<BridgedMessage>)>::empty(), r) is None);
        }
    } else {
        assert(s.push(p)[0] == s[0]);
        assert(s.push(p).drop_first() =~= s.drop_first().push(p));
        lemma_room_slot_pushed(s.drop_first(), p);
        assert(room_slot(s.push(p), p.0@) == Some(p.1@));
        assert forall|r: Seq<char>| r != p.0@ implies #[trigger] room_slot(s.push(p), r)
            == room_slot(s, r) by {
            if s[0].0@ != r {
                assert(room_slot(s.push(p), r) == room_slot(s.drop_first().push(p), r));
                assert(room_slot(s, r) == room_slot(s.drop_first(), r));
            }
        }
    }
}

/// Scanning for a source id that only the final record carries finds that
/// record's destination pair.
proof fn lemma_scan_finds_appended_source(s: Seq<BridgedMessage>, rec: BridgedMessage)
    requires
        forall|i: int| 0 <= i < s.len() ==> !has_source(#[trigger] s[i], rec.matrix_id@),
    ensures
        first_dest_for_source(s.push(rec), rec.matrix_id@) == Some(rec.telegram_id),
    decreases s.len(),
{
    if s.len() == 0 {
        assert(s.push(rec)[0] == rec);
    } else {
        assert(s.push(rec)[0] == s[0]);
        assert(s.push(rec).drop_first() =~= s.drop_first().push(rec));
        lemma_scan_finds_appended_source(s.drop_first(), rec);
    }
}

/// Scanning for a destination pair that only the final record carries finds
/// that record's Matrix event id.
proof fn lemma_scan_finds_appended_dest(s: Seq<BridgedMessage>, rec: BridgedMessage)
    requires
        forall|i: int|
            0 <= i < s.len() ==> !has_dest(
                #[trigger] s[i],
                rec.telegram_id.0,
                rec.telegram_id.1,
            ),
    ensures
        first_source_for_dest(s.push(rec), rec.telegram_id.0, rec.telegram_id.1) == Some(
            rec.matrix_id@,
        ),
    decreases s.len(),
{
    if s.len() == 0 {
        assert(s.push(rec)[0] == rec);
    } else {
        assert(s.push(rec)[0] == s[0]);
        assert(s.push(rec).drop_first() =~= s.drop_first().push(rec));
        lemma_scan_finds_appended_dest(s.drop_first(), rec);
    }
}

/// Round-trip mapping: when a record with a fresh Matrix id and a fresh
/// Telegram pair is appended under the capacity rule, looking up the record's
/// Matrix id yields exactly the Telegram pair the send produced, and looking
/// up that pair yields the Matrix id back.
pub proof fn lemma_round_trip_mapping(s: Seq<BridgedMessage>, rec: BridgedMessage)
    requires
        forall|i: int| 0 <= i < s.len() ==> !has_source(#[trigger] s[i], rec.matrix_id@),
        forall|i: int|
            0 <= i < s.len() ==> !has_dest(
                #[trigger] s[i],
                rec.telegram_id.0,
                rec.telegram_id.1,
            ),
    ensures
        first_dest_for_source(appended_capped(s, rec), rec.matrix_id@) == Some(rec.telegram_id),
        first_source_for_dest(appended_capped(s, rec), rec.telegram_id.0, rec.telegram_id.1)
            == Some(rec.matrix_id@),
{
    let grown = s.push(rec);
    if grown.len() <= BRIDGED_MESSAGES_CAP {
        assert(appended_capped(s, rec) == grown);
        lemma_scan_finds_appended_source(s, rec);
        lemma_scan_finds_appended_dest(s, rec);
    } else {
        let k = grown.len() - BRIDGED_MESSAGES_CAP;
        assert(appended_capped(s, rec) == grown.skip(k));
        assert(grown.skip(k) =~= s.skip(k).push(rec));
        assert(forall|i: int|
            0 <= i < s.skip(k).len() ==> !has_source(#[trigger] s.skip(k)[i], rec.matrix_id@));
        assert(forall|i: int|
            0 <= i < s.skip(k).len() ==> !has_dest(
                #[trigger] s.skip(k)[i],
                rec.telegram_id.0,
                rec.telegram_id.1,
            ));
        lemma_scan_finds_appended_source(s.skip(k), rec);
        lemma_scan_finds_appended_dest(s.skip(k), rec);
    }
}

/// The record sequence that results from appending each element of `recs`,
/// in order, under the capacity rule, starting from `s`.
pub open spec fn appended_all(s: Seq<BridgedMessage>, recs: Seq<BridgedMessage>) -> Seq<
    BridgedMessage,
>
    decreases recs.len(),
{
    if recs.len() == 0 {
        s
    } else {
        appended_all(appended_capped(s, recs[0]), recs.drop_first())
    }
}

/// One capped append starting from a clipped sequence lands on the clipped
/// grown sequence.
proof fn lemma_window_step(q: Seq<BridgedMessage>, r: BridgedMessage)
    ensures
        appended_capped(capped_window(q), r) == capped_window(q.push(r)),
{
    if q.len() <= BRIDGED_MESSAGES_CAP {
        assert(capped_window(q) == q);
    } else {
        let k = q.len() - BRIDGED_MESSAGES_CAP;
        assert(capped_window(q) == q.skip(k));
        assert(q.skip(k).push(r) =~= q.push(r).skip(k));
        assert(q.skip(k).push(r).skip(1) =~= q.push(r).skip(k + 1));
        assert(appended_capped(capped_window(q), r) =~= capped_window(q.push(r)));
    }
}

/// Appending records one by one onto a clipped sequence gives the clipped
/// concatenation.
proof fn lemma_appended_all_window(q: Seq<BridgedMessage>, recs: Seq<BridgedMessage>)
    ensures
        appended_all(capped_window(q), recs) == capped_window(q + recs),
    decreases recs.len(),
{
    if recs.len() == 0 {
        assert(q + recs =~= q);
    } else {
        lemma_window_step(q, recs[0]);
        lemma_appended_all_window(q.push(recs[0]), recs.drop_first());
        assert(q.push(recs[0]) + recs.drop_first() =~= q + recs);
    }
}

/// Capacity invariant: appending any run of records to an empty store keeps
/// exactly the most recent `BRIDGED_MESSAGES_CAP` of them, in their original
/// relative order; the older ones are evicted.
pub proof fn lemma_capacity_window(recs: Seq<BridgedMessage>)
    ensures
        appended_all(Seq::empty(), recs) == capped_window(recs),
        recs.len() <= BRIDGED_MESSAGES_CAP ==> appended_all(Seq::empty(), recs) == recs,
        recs.len() > BRIDGED_MESSAGES_CAP ==> appended_all(Seq::empty(), recs) == recs.skip(
            recs.len() - BRIDGED_MESSAGES_CAP,
        ),
{
    assert(capped_window(Seq::<BridgedMessage>::empty()) == Seq::<BridgedMessage>::empty());
    lemma_appended_all_window(Seq::empty(), recs);
    assert(Seq::<BridgedMessage>::empty() + recs =~= recs);
}

} // verus!
