//! Binary encoding of a correspondence record sequence: the format of the
//! per-conversation store file. A file holds a record count followed by the
//! records, each framed as a length-prefixed UTF-8 Matrix event id and the
//! biased Telegram chat and message ids. Decoding an encoded sequence gives
//! the records back exactly.

use vstd::bytes::*;
use vstd::prelude::*;
use vstd::slice::*;
use vstd::utf8::*;

use crate::db::BridgedMessage;

verus! {

broadcast use vstd::utf8::encode_utf8_valid_utf8, vstd::utf8::encode_utf8_decode_utf8;

/// The mathematical value of a record: its Matrix event id as characters and
/// the two Telegram ids.
pub open spec fn bm_model(m: BridgedMessage) -> (Seq<char>, i64, i32) {
    (m.matrix_id@, m.telegram_id.0, m.telegram_id.1)
}

/// The mathematical values of a record sequence.
pub open spec fn models(s: Seq<BridgedMessage>) -> Seq<(Seq<char>, i64, i32)> {
    s.map_values(|m: BridgedMessage| bm_model(m))
}

/// A chat id shifted into unsigned range so that it can be stored as a plain
/// little-endian `u64`.
pub open spec fn bias_chat(c: i64) -> u64 {
    (c as int + 0x8000_0000_0000_0000) as u64
}

/// The inverse shift of [`bias_chat`].
pub open spec fn unbias_chat(u: u64) -> i64 {
    (u as int - 0x8000_0000_0000_0000) as i64
}

/// A message id shifted into unsigned range so that it can be stored as a
/// plain little-endian `u32`.
pub open spec fn bias_msg(m: i32) -> u32 {
    (m as int + 0x8000_0000) as u32
}

/// The inverse shift of [`bias_msg`].
pub open spec fn unbias_msg(u: u32) -> i32 {
    (u as int - 0x8000_0000) as i32
}

/// The byte encoding of one record: id length, id bytes, biased chat id,
/// biased message id.
pub open spec fn spec_encode_record(m: BridgedMessage) -> Seq<u8> {
    let id_bytes = encode_utf8(m.matrix_id@);
    spec_u64_to_le_bytes(id_bytes.len() as u64) + id_bytes + spec_u64_to_le_bytes(
        bias_chat(m.telegram_id.0),
    ) + spec_u32_to_le_bytes(bias_msg(m.telegram_id.1))
}

/// The concatenated encodings of a record sequence, in order.
pub open spec fn spec_encode_all(s: Seq<BridgedMessage>) -> Seq<u8>
    decreases s.len(),
{
    if s.len() == 0 {
        Seq::empty()
    } else {
        spec_encode_record(s[0]) + spec_encode_all(s.drop_first())
    }
}

/// The byte encoding of a whole store file: the record count followed by the
/// record encodings.
pub open spec fn spec_encode_records(s: Seq<BridgedMessage>) -> Seq<u8> {
    spec_u64_to_le_bytes(s.len() as u64) + spec_encode_all(s)
}

/// Parse one record at `pos`: its model and the position after it, or `None`
/// when the bytes there do not frame a record.
pub open spec fn spec_parse_record(bytes: Seq<u8>, pos: int) -> Option<
    ((Seq<char>, i64, i32), int),
> {
    if pos + 8 > bytes.len() {
        None
    } else {
        let l = spec_u64_from_le_bytes(bytes.subrange(pos, pos + 8)) as int;
        if pos + 8 + l + 12 > bytes.len() {
            None
        } else {
            let id_bytes = bytes.subrange(pos + 8, pos + 8 + l);
            if !valid_utf8(id_bytes) {
                None
            } else {
                let chat = unbias_chat(
                    spec_u64_from_le_bytes(bytes.subrange(pos + 8 + l, pos + 8 + l + 8)),
                );
                let msg = unbias_msg(
                    spec_u32_from_le_bytes(bytes.subrange(pos + 8 + l + 8, pos + 8 + l + 12)),
                );
                Some(((decode_utf8(id_bytes), chat, msg), pos + 20 + l))
            }
        }
    }
}

/// Parse `n` records starting at `pos`, accumulating their models; the whole
/// input must be consumed exactly.
pub open spec fn spec_parse_records(
    bytes: Seq<u8>,
    pos: int,
    n: nat,
    acc: Seq<(Seq<char>, i64, i32)>,
) -> Option<Seq<(Seq<char>, i64, i32)>>
    decreases n,
{
    if n == 0 {
        if pos == bytes.len() {
            Some(acc)
        } else {
            None
        }
    } else {
        match spec_parse_record(bytes, pos) {
            None => None,
            Some((m, newpos)) => spec_parse_records(bytes, newpos, (n - 1) as nat, acc.push(m)),
        }
    }
}

/// The record models a store file holds, or `None` when the bytes are not a
/// well-formed encoding.
pub open spec fn spec_decode_records(bytes: Seq<u8>) -> Option<Seq<(Seq<char>, i64, i32)>> {
    if bytes.len() < 8 {
        None
    } else {
        let n = spec_u64_from_le_bytes(bytes.subrange(0, 8));
        spec_parse_records(bytes, 8, n as nat, Seq::empty())
    }
}

/// Relies on `String::from_utf8`: it succeeds exactly on valid UTF-8 input
/// and the returned string's bytes are the input bytes.
#[verifier::external_body]
fn string_from_utf8(v: Vec<u8>) -> (r: Option<String>)
    ensures
        match r {
            Some(s) => valid_utf8(v@) && encode_utf8(s@) == v@,
            None => !valid_utf8(v@),
        },
{
    match String::from_utf8(v) {
        Ok(s) => Some(s),
        Err(_) => None,
    }
}

/// Append the bytes of `b` to `out`.
pub(crate) fn push_bytes(out: &mut Vec<u8>, b: &[u8])
    ensures
        final(out)@ == old(out)@ + b@,
{
    let mut i: usize = 0;
    proof {
        assert(old(out)@ + b@.take(0) =~= old(out)@);
    }
    while i < b.len()
        invariant
            i <= b@.len(),
            out@ == old(out)@ + b@.take(i as int),
        decreases b@.len() - i,
    {
        let x: u8 = *slice_index_get(b, i);
        out.push(x);
        proof {
            assert(old(out)@ + b@.take(i as int) + seq![b@[i as int]] =~= old(out)@ + b@.take(
                i + 1,
            ));
        }
        i = i + 1;
    }
    proof {
        assert(b@.take(b@.len() as int) =~= b@);
    }
}

/// Read the little-endian `u64` stored at `pos`.
fn read_u64_at(bytes: &Vec<u8>, pos: usize) -> (x: u64)
    requires
        pos + 8 <= bytes@.len(),
    ensures
        x == spec_u64_from_le_bytes(bytes@.subrange(pos as int, pos + 8)),
{
    let _n: usize = bytes.len();
    u64_from_le_bytes(slice_subrange(bytes.as_slice(), pos, pos + 8))
}

/// Read the little-endian `u32` stored at `pos`.
fn read_u32_at(bytes: &Vec<u8>, pos: usize) -> (x: u32)
    requires
        pos + 4 <= bytes@.len(),
    ensures
        x == spec_u32_from_le_bytes(bytes@.subrange(pos as int, pos + 4)),
{
    let _n: usize = bytes.len();
    u32_from_le_bytes(slice_subrange(bytes.as_slice(), pos, pos + 4))
}

/// Shift a chat id into unsigned storage range.
fn bias_chat_exec(c: i64) -> (u: u64)
    ensures
        u == bias_chat(c),
{
    ((c as i128) + 0x8000_0000_0000_0000i128) as u64
}

/// Undo the storage shift of a chat id.
fn unbias_chat_exec(u: u64) -> (c: i64)
    ensures
        c == unbias_chat(u),
{
    ((u as i128) - 0x8000_0000_0000_0000i128) as i64
}

/// Shift a message id into unsigned storage range.
fn bias_msg_exec(m: i32) -> (u: u32)
    ensures
        u == bias_msg(m),
{
    ((m as i64) + 0x8000_0000i64) as u32
}

/// Undo the storage shift of a message id.
fn unbias_msg_exec(u: u32) -> (m: i32)
    ensures
        m == unbias_msg(u),
{
    ((u as i64) - 0x8000_0000i64) as i32
}

/// Concatenated record encodings grow at the tail when a record is appended.
proof fn lemma_encode_all_snoc(s: Seq<BridgedMessage>, m: BridgedMessage)
    ensures
        spec_encode_all(s.push(m)) == spec_encode_all(s) + spec_encode_record(m),
    decreases s.len(),
{
    if s.len() == 0 {
        assert(s.push(m)[0] == m);
        assert(s.push(m).drop_first() =~= Seq::<BridgedMessage>::empty());
        assert(spec_encode_all(Seq::<BridgedMessage>::empty()) == Seq::<u8>::empty());
        assert(spec_encode_record(m) + Seq::<u8>::empty() =~= spec_encode_record(m));
        assert(Seq::<u8>::empty() + spec_encode_record(m) =~= spec_encode_record(m));
    } else {
        assert(s.push(m)[0] == s[0]);
        assert(s.push(m).drop_first() =~= s.drop_first().push(m));
        lemma_encode_all_snoc(s.drop_first(), m);
        assert(spec_encode_record(s[0]) + (spec_encode_all(s.drop_first()) + spec_encode_record(m))
            =~= (spec_encode_record(s[0]) + spec_encode_all(s.drop_first()))
            + spec_encode_record(m));
    }
}

/// Encode a record sequence as store-file bytes.
pub fn encode_records(records: &Vec<BridgedMessage>) -> (out: Vec<u8>)
    ensures
        out@ == spec_encode_records(records@),
{
    let mut out: Vec<u8> = Vec::new();
    let count_bytes = u64_to_le_bytes(records.len() as u64);
    push_bytes(&mut out, count_bytes.as_slice());
    proof {
        assert(Seq::<u8>::empty() + spec_u64_to_le_bytes(records@.len() as u64)
            =~= spec_u64_to_le_bytes(records@.len() as u64));
        assert(out@ + spec_encode_all(records@.take(0)) =~= out@);
    }
    let ghost prefix: Seq<u8> = out@;
    let mut i: usize = 0;
    while i < records.len()
        invariant
            i <= records@.len(),
            prefix == spec_u64_to_le_bytes(records@.len() as u64),
            out@ == prefix + spec_encode_all(records@.take(i as int)),
        decreases records@.len() - i,
    {
        let ghost out0: Seq<u8> = out@;
        let rec = &records[i];
        let id_bytes: &[u8] = rec.matrix_id.as_str().as_bytes();
        let len_bytes = u64_to_le_bytes(id_bytes.len() as u64);
        push_bytes(&mut out, len_bytes.as_slice());
        push_bytes(&mut out, id_bytes);
        let chat_bytes = u64_to_le_bytes(bias_chat_exec(rec.telegram_id.0));
        push_bytes(&mut out, chat_bytes.as_slice());
        let msg_bytes = u32_to_le_bytes(bias_msg_exec(rec.telegram_id.1));
        push_bytes(&mut out, msg_bytes.as_slice());
        proof {
            assert(out@ =~= out0 + spec_encode_record(records@[i as int]));
            lemma_encode_all_snoc(records@.take(i as int), records@[i as int]);
            assert(records@.take(i as int).push(records@[i as int]) =~= records@.take(i + 1));
            assert(out@ =~= prefix + spec_encode_all(records@.take(i + 1)));
        }
        i = i + 1;
    }
    proof {
        assert(records@.take(records@.len() as int) =~= records@);
    }
    out
}

/// Decode store-file bytes into the record sequence they hold. Returns
/// `None` when the bytes are not a well-formed encoding; a caller treats
/// that as an empty store.
pub fn decode_records(bytes: &Vec<u8>) -> (r: Option<Vec<BridgedMessage>>)
    ensures
        match r {
            Some(v) => spec_decode_records(bytes@) == Some(models(v@)),
            None => spec_decode_records(bytes@) is None,
        },
{
    if bytes.len() < 8 {
        return None;
    }
    let n: u64 = read_u64_at(bytes, 0);
    let mut out: Vec<BridgedMessage> = Vec::new();
    let mut pos: usize = 8;
    let mut k: u64 = 0;
    proof {
        assert(models(out@) =~= Seq::<(Seq<char>, i64, i32)>::empty());
    }
    while k < n
        invariant
            8 <= pos <= bytes@.len(),
            k <= n,
            spec_decode_records(bytes@) == spec_parse_records(
                bytes@,
                pos as int,
                (n - k) as nat,
                models(out@),
            ),
        decreases n - k,
    {
        if bytes.len() - pos < 8 {
            return None;
        }
        let l64 = read_u64_at(bytes, pos);
        let rest = bytes.len() - pos - 8;
        if l64 > rest as u64 {
            return None;
        }
        let l = l64 as usize;
        if rest - l < 12 {
            return None;
        }
        let id_vec = slice_to_vec(slice_subrange(bytes.as_slice(), pos + 8, pos + 8 + l));
        let id = match string_from_utf8(id_vec) {
            Some(s) => s,
            None => {
                return None;
            },
        };
        let chat = unbias_chat_exec(read_u64_at(bytes, pos + 8 + l));
        let msg = unbias_msg_exec(read_u32_at(bytes, pos + 8 + l + 8));
        let ghost out0: Seq<BridgedMessage> = out@;
        let rec = BridgedMessage { matrix_id: id, telegram_id: (chat, msg) };
        proof {
            let id_bytes = bytes@.subrange(pos + 8, pos + 8 + l);
            assert(decode_utf8(id_bytes) == rec.matrix_id@);
            assert(spec_parse_record(bytes@, pos as int) == Some(
                (bm_model(rec), pos + 20 + l),
            ));
        }
        out.push(rec);
        proof {
            assert(models(out@) =~= models(out0).push(bm_model(rec)));
        }
        pos = pos + 20 + l;
        k = k + 1;
    }
    if pos != bytes.len() {
        return None;
    }
    Some(out)
}

/// Decode store-file bytes, treating undecodable bytes as an empty record
/// sequence rather than an error: a corrupt or truncated store file degrades
/// reply threading but never stops a relay.
pub fn decode_records_or_empty(bytes: &Vec<u8>) -> (r: Vec<BridgedMessage>)
    ensures
        match spec_decode_records(bytes@) {
            Some(ms) => models(r@) == ms,
            None => r@ == Seq::<BridgedMessage>::empty(),
        },
{
    match decode_records(bytes) {
        Some(v) => v,
        None => Vec::new(),
    }
}

/// Decoding an encoded record sequence gives the records' values back:
/// the store file format loses nothing.
pub proof fn lemma_decode_encode(s: Seq<BridgedMessage>)
    requires
        s.len() < 0x1_0000_0000_0000_0000,
        forall|i: int|
            0 <= i < s.len() ==> encode_utf8((#[trigger] s[i]).matrix_id@).len()
                < 0x1_0000_0000_0000_0000,
    ensures
        spec_decode_records(spec_encode_records(s)) == Some(models(s)),
{
    let whole = spec_encode_records(s);
    vstd::bytes::lemma_auto_spec_u64_to_from_le_bytes();
    assert(whole.subrange(0, 8) =~= spec_u64_to_le_bytes(s.len() as u64));
    lemma_parse_encoded(whole, spec_u64_to_le_bytes(s.len() as u64), s, Seq::empty());
    assert(Seq::<(Seq<char>, i64, i32)>::empty() + models(s) =~= models(s));
}

/// Parsing the encoded suffix of a record sequence collects exactly the
/// records' models.
proof fn lemma_parse_encoded(
    whole: Seq<u8>,
    prefix: Seq<u8>,
    s: Seq<BridgedMessage>,
    acc: Seq<(Seq<char>, i64, i32)>,
)
    requires
        whole == prefix + spec_encode_all(s),
        forall|i: int|
            0 <= i < s.len() ==> encode_utf8((#[trigger] s[i]).matrix_id@).len()
                < 0x1_0000_0000_0000_0000,
    ensures
        spec_parse_records(whole, prefix.len() as int, s.len() as nat, acc) == Some(
            acc + models(s),
        ),
    decreases s.len(),
{
    vstd::bytes::lemma_auto_spec_u64_to_from_le_bytes();
    vstd::bytes::lemma_auto_spec_u32_to_from_le_bytes();
    if s.len() == 0 {
        assert(whole =~= prefix);
        assert(acc + models(s) =~= acc);
    } else {
        let pos = prefix.len() as int;
        let m = s[0];
        let id_bytes = encode_utf8(m.matrix_id@);
        let l = id_bytes.len() as int;
        let rec_bytes = spec_encode_record(m);
        let prefix2 = prefix + rec_bytes;
        assert(whole =~= prefix2 + spec_encode_all(s.drop_first()));
        assert(whole.subrange(pos, pos + 8) =~= spec_u64_to_le_bytes(l as u64));
        assert(spec_u64_from_le_bytes(whole.subrange(pos, pos + 8)) == l as u64);
        assert(whole.subrange(pos + 8, pos + 8 + l) =~= id_bytes);
        assert(whole.subrange(pos + 8 + l, pos + 8 + l + 8) =~= spec_u64_to_le_bytes(
            bias_chat(m.telegram_id.0),
        ));
        assert(whole.subrange(pos + 8 + l + 8, pos + 8 + l + 12) =~= spec_u32_to_le_bytes(
            bias_msg(m.telegram_id.1),
        ));
        assert(valid_utf8(id_bytes));
        assert(decode_utf8(id_bytes) == m.matrix_id@);
        assert(spec_parse_record(whole, pos) == Some((bm_model(m), pos + 20 + l)));
        lemma_parse_encoded(whole, prefix2, s.drop_first(), acc.push(bm_model(m)));
        assert(acc.push(bm_model(m)) + models(s.drop_first()) =~= acc + models(s));
    }
}

} // verus!
