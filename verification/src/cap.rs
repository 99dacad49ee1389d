//! The control-protocol codec for the common access pipe: Subscription,
//! Unsubscription and Assignment payloads, carried as the data field of a
//! framed message.
//!
//! A Subscription is its type byte, a group count, and that many
//! length-prefixed group names. An Unsubscription is its type byte alone. An
//! Assignment is its type byte, an error byte, and — only when the error byte
//! is zero — the length-prefixed transmit and receive pipe paths.

use vstd::prelude::*;

use crate::message::{bytes_as_chars, bytes_to_string, chars_as_bytes, string_to_bytes};
use crate::{OctopipesCapError, OctopipesCapMessage, OctopipesError};

verus! {

/// The length-prefixed concatenation of group names.
pub open spec fn groups_body(groups: Seq<Seq<u8>>) -> Seq<u8>
    decreases groups.len(),
{
    if groups.len() == 0 {
        Seq::<u8>::empty()
    } else {
        seq![groups.first().len() as u8] + groups.first() + groups_body(groups.drop_first())
    }
}

/// Appending one more group extends the body at its end.
pub proof fn lemma_groups_body_push(groups: Seq<Seq<u8>>, g: Seq<u8>)
    ensures
        groups_body(groups.push(g)) == groups_body(groups) + seq![g.len() as u8] + g,
    decreases groups.len(),
{
    let p = groups.push(g);
    if groups.len() == 0 {
        assert(p.drop_first() =~= Seq::<Seq<u8>>::empty());
        assert(groups_body(p.drop_first()) == Seq::<u8>::empty());
        assert(groups_body(p) =~= groups_body(groups) + seq![g.len() as u8] + g);
    } else {
        assert(p.first() == groups.first());
        assert(p.drop_first() =~= groups.drop_first().push(g));
        lemma_groups_body_push(groups.drop_first(), g);
        assert(groups_body(p) =~= groups_body(groups) + seq![g.len() as u8] + g);
    }
}

/// A body of at most 255 groups of at most 255 bytes each stays small.
pub proof fn lemma_groups_body_len(groups: Seq<Seq<u8>>)
    requires
        forall|j: int| 0 <= j < groups.len() ==> (#[trigger] groups[j]).len() <= 255,
    ensures
        groups_body(groups).len() <= groups.len() * 256,
    decreases groups.len(),
{
    if groups.len() == 0 {
    } else {
        assert(groups.first().len() <= 255);
        lemma_groups_body_len(groups.drop_first());
    }
}

/// The payload of a Subscription control message.
pub open spec fn subscribe_payload(groups: Seq<Seq<u8>>) -> Seq<u8> {
    seq![0x01u8, groups.len() as u8] + groups_body(groups)
}

/// The payload of an Assignment control message: the paths are carried only
/// when both are present.
pub open spec fn assignment_payload(error: u8, tx: Option<Seq<u8>>, rx: Option<Seq<u8>>) -> Seq<
    u8,
> {
    match (tx, rx) {
        (Some(t), Some(x)) => seq![0xffu8, error, t.len() as u8] + t + seq![x.len() as u8] + x,
        _ => seq![0xffu8, error],
    }
}

/// The payload of an Unsubscription control message.
pub open spec fn unsubscribe_payload() -> Seq<u8> {
    seq![0x02u8]
}

/// Reading `count` length-prefixed groups from `d` starting at `idx`: the
/// groups, or `None` when a group overruns the buffer or too few are present.
pub open spec fn parse_groups(d: Seq<u8>, idx: int, count: int) -> Option<Seq<Seq<u8>>>
    decreases count,
{
    if count <= 0 {
        Some(Seq::<Seq<u8>>::empty())
    } else if idx >= d.len() {
        None
    } else {
        let glen = d[idx] as int;
        if idx + 1 + glen > d.len() {
            None
        } else {
            match parse_groups(d, idx + 1 + glen, count - 1) {
                None => None,
                Some(rest) => Some(seq![d.subrange(idx + 1, idx + 1 + glen)] + rest),
            }
        }
    }
}

/// What decoding a Subscription payload yields: the group names as byte
/// strings, or `BadPacket`.
pub open spec fn decode_subscribe_spec(d: Seq<u8>) -> Result<Seq<Seq<u8>>, OctopipesError> {
    if d.len() < 2 {
        Err(OctopipesError::BadPacket)
    } else if d[0] != 0x01 {
        Err(OctopipesError::BadPacket)
    } else {
        match parse_groups(d, 2, d[1] as int) {
            None => Err(OctopipesError::BadPacket),
            Some(gs) => Ok(gs),
        }
    }
}

/// What decoding an Assignment payload yields: the error byte and, when the
/// error byte is zero, the two pipe paths as byte strings.
pub open spec fn decode_assignment_spec(d: Seq<u8>) -> Result<
    (u8, Option<Seq<u8>>, Option<Seq<u8>>),
    OctopipesError,
> {
    if d.len() < 2 {
        Err(OctopipesError::BadPacket)
    } else if d[0] != 0xff {
        Err(OctopipesError::BadPacket)
    } else if OctopipesCapError::spec_from_u8(d[1]) is None {
        Err(OctopipesError::BadPacket)
    } else if d[1] != 0 {
        Ok((d[1], None, None))
    } else if d.len() < 4 {
        Err(OctopipesError::BadPacket)
    } else {
        let tl = d[2] as int;
        if d.len() < 4 + tl {
            Err(OctopipesError::BadPacket)
        } else {
            let rl = d[3 + tl] as int;
            if 4 + tl + rl > d.len() {
                Err(OctopipesError::BadPacket)
            } else {
                Ok((0, Some(d.subrange(3, 3 + tl)), Some(d.subrange(4 + tl, 4 + tl + rl))))
            }
        }
    }
}

/// Encodes a Subscription payload for the given group names.
pub fn encode_subscribe(groups: &Vec<String>) -> (r: Vec<u8>)
    requires
        groups@.len() <= 255,
        forall|j: int| 0 <= j < groups@.len() ==> chars_as_bytes(#[trigger] groups@[j]@).len()
            <= 255,
    ensures
        r@ == subscribe_payload(groups@.map_values(|g: String| chars_as_bytes(g@))),
{
    let ghost gs = groups@.map_values(|g: String| chars_as_bytes(g@));
    let mut payload: Vec<u8> = Vec::new();
    payload.push(0x01);
    payload.push(groups.len() as u8);
    assert(payload@ =~= seq![0x01u8, gs.len() as u8]);
    assert(gs.take(0) =~= Seq::<Seq<u8>>::empty());
    let mut i: usize = 0;
    while i < groups.len()
        invariant
            i <= groups@.len(),
            gs.len() == groups@.len(),
            forall|j: int| 0 <= j < gs.len() ==> gs[j] == chars_as_bytes(#[trigger] groups@[j]@),
            forall|j: int| 0 <= j < gs.len() ==> (#[trigger] gs[j]).len() <= 255,
            payload@ == seq![0x01u8, gs.len() as u8] + groups_body(gs.take(i as int)),
        decreases groups@.len() - i,
    {
        let mut bytes = string_to_bytes(groups[i].as_str());
        payload.push(bytes.len() as u8);
        payload.append(&mut bytes);
        proof {
            lemma_groups_body_push(gs.take(i as int), gs[i as int]);
            assert(gs.take(i + 1) =~= gs.take(i as int).push(gs[i as int]));
            assert(payload@ =~= seq![0x01u8, gs.len() as u8] + groups_body(gs.take(i + 1)));
        }
        i = i + 1;
    }
    proof {
        assert(gs.take(gs.len() as int) =~= gs);
    }
    payload
}

/// Encodes an Assignment payload; the paths are written only when both are
/// given.
pub fn encode_assignment(
    error: OctopipesCapError,
    tx_pipe: Option<String>,
    rx_pipe: Option<String>,
) -> (r: Vec<u8>)
    requires
        tx_pipe matches Some(t) ==> chars_as_bytes(t@).len() <= 255,
        rx_pipe matches Some(x) ==> chars_as_bytes(x@).len() <= 255,
    ensures
        r@ == assignment_payload(
            error.spec_u8(),
            match tx_pipe {
                Some(t) => Some(chars_as_bytes(t@)),
                None => None,
            },
            match rx_pipe {
                Some(x) => Some(chars_as_bytes(x@)),
                None => None,
            },
        ),
{
    let mut payload: Vec<u8> = Vec::new();
    payload.push(0xff);
    payload.push(error.to_u8());
    if tx_pipe.is_some() && rx_pipe.is_some() {
        let tx: &String = tx_pipe.as_ref().unwrap();
        let rx: &String = rx_pipe.as_ref().unwrap();
        let mut tx_bytes = string_to_bytes(tx.as_str());
        let mut rx_bytes = string_to_bytes(rx.as_str());
        payload.push(tx_bytes.len() as u8);
        payload.append(&mut tx_bytes);
        payload.push(rx_bytes.len() as u8);
        payload.append(&mut rx_bytes);
        proof {
            let t = chars_as_bytes(tx@);
            let x = chars_as_bytes(rx@);
            assert(payload@ =~= seq![0xffu8, error.spec_u8(), t.len() as u8] + t + seq![
                x.len() as u8,
            ] + x);
        }
    } else {
        assert(payload@ =~= seq![0xffu8, error.spec_u8()]);
    }
    payload
}

/// Encodes an Unsubscription payload.
pub fn encode_unsubscribe() -> (r: Vec<u8>)
    ensures
        r@ == unsubscribe_payload(),
{
    let mut payload: Vec<u8> = Vec::new();
    payload.push(0x02);
    assert(payload@ =~= seq![0x02u8]);
    payload
}

/// Reads the control-message type byte of a payload.
pub fn get_cap_message_type(data: &Vec<u8>) -> (r: Result<OctopipesCapMessage, OctopipesError>)
    ensures
        data@.len() == 0 ==> r == Err::<OctopipesCapMessage, OctopipesError>(
            OctopipesError::BadPacket,
        ),
        data@.len() > 0 ==> r == (match OctopipesCapMessage::spec_from_u8(data@[0]) {
            Some(t) => Ok::<OctopipesCapMessage, OctopipesError>(t),
            None => Err::<OctopipesCapMessage, OctopipesError>(OctopipesError::BadPacket),
        }),
{
    if data.len() == 0 {
        return Err(OctopipesError::BadPacket);
    }
    match OctopipesCapMessage::from_u8(data[0]) {
        None => Err(OctopipesError::BadPacket),
        Some(t) => Ok(t),
    }
}

/// Decodes a Subscription payload into its group names, read as character
/// strings.
pub fn decode_subscribe(data: &Vec<u8>) -> (r: Result<Vec<String>, OctopipesError>)
    ensures
        r matches Ok(groups) ==> (decode_subscribe_spec(data@) matches Ok(gs) && groups@.len()
            == gs.len() && (forall|j: int|
            0 <= j < gs.len() ==> (#[trigger] groups@[j])@ == bytes_as_chars(gs[j]))),
        r matches Err(e) ==> decode_subscribe_spec(data@) == Err::<Seq<Seq<u8>>, OctopipesError>(
            e,
        ),
{
    let ghost d = data@;
    if data.len() < 2 {
        return Err(OctopipesError::BadPacket);
    }
    if data[0] != 0x01 {
        return Err(OctopipesError::BadPacket);
    }
    let amount: usize = data[1] as usize;
    let mut groups: Vec<String> = Vec::new();
    let ghost mut gsofar = Seq::<Seq<u8>>::empty();
    let mut index: usize = 2;
    while groups.len() < amount
        invariant
            data@ == d,
            d.len() >= 2,
            amount == d[1] as int,
            groups@.len() == gsofar.len(),
            gsofar.len() <= amount,
            2 <= index <= d.len(),
            forall|j: int|
                0 <= j < gsofar.len() ==> (#[trigger] groups@[j])@ == bytes_as_chars(gsofar[j]),
            match parse_groups(d, index as int, amount - gsofar.len()) {
                Some(rest) => parse_groups(d, 2, amount as int) == Some(gsofar + rest),
                None => parse_groups(d, 2, amount as int) is None,
            },
        decreases amount - groups@.len(),
    {
        if index >= data.len() {
            return Err(OctopipesError::BadPacket);
        }
        let group_size: usize = data[index] as usize;
        if group_size > data.len() - index - 1 {
            return Err(OctopipesError::BadPacket);
        }
        let ghost g = d.subrange(index + 1, index + 1 + group_size);
        let mut gbytes: Vec<u8> = Vec::new();
        let mut j: usize = 0;
        while j < group_size
            invariant
                j <= group_size,
                data@ == d,
                index + 1 + group_size <= d.len(),
                d.len() <= usize::MAX,
                gbytes@ == d.subrange(index as int + 1, index + 1 + j),
            decreases group_size - j,
        {
            gbytes.push(data[index + 1 + j]);
            assert(gbytes@ =~= d.subrange(index as int + 1, index + 1 + j + 1));
            j = j + 1;
        }
        let gstr = bytes_to_string(&gbytes);
        groups.push(gstr);
        proof {
            let rem = amount - gsofar.len();
            let rest_opt = parse_groups(d, index + 1 + group_size, rem - 1);
            match rest_opt {
                Some(rest) => {
                    assert(parse_groups(d, index as int, rem) == Some(seq![g] + rest));
                    assert(gsofar + (seq![g] + rest) =~= (gsofar.push(g)) + rest);
                },
                None => {
                    assert(parse_groups(d, index as int, rem) is None);
                },
            }
            gsofar = gsofar.push(g);
        }
        index = index + 1 + group_size;
    }
    proof {
        assert(parse_groups(d, index as int, 0) == Some(Seq::<Seq<u8>>::empty()));
        assert(gsofar + Seq::<Seq<u8>>::empty() =~= gsofar);
    }
    Ok(groups)
}

/// Decodes an Assignment payload into its error and, when the error is
/// `NoError`, the two pipe paths read as character strings.
pub fn decode_assignment(data: &Vec<u8>) -> (r: Result<
    (OctopipesCapError, Option<String>, Option<String>),
    OctopipesError,
>)
    ensures
        r matches Ok(t) ==> (decode_assignment_spec(data@) matches Ok(s) && t.0.spec_u8() == s.0
            && (t.1 matches Some(tp) ==> s.1 matches Some(tb) && tp@ == bytes_as_chars(tb)) && (
        t.1 is None <==> s.1 is None) && (t.2 matches Some(rp) ==> s.2 matches Some(rb) && rp@
            == bytes_as_chars(rb)) && (t.2 is None <==> s.2 is None)),
        r matches Err(e) ==> decode_assignment_spec(data@) == Err::<
            (u8, Option<Seq<u8>>, Option<Seq<u8>>),
            OctopipesError,
        >(e),
{
    let ghost d = data@;
    if data.len() < 2 {
        return Err(OctopipesError::BadPacket);
    }
    if data[0] != 0xff {
        return Err(OctopipesError::BadPacket);
    }
    let cap_error: OctopipesCapError = match OctopipesCapError::from_u8(data[1]) {
        None => {
            return Err(OctopipesError::BadPacket);
        },
        Some(e) => e,
    };
    if data[1] != 0 {
        return Ok((cap_error, None, None));
    }
    if data.len() < 4 {
        return Err(OctopipesError::BadPacket);
    }
    let tx_len: usize = data[2] as usize;
    if data.len() < 4 + tx_len {
        return Err(OctopipesError::BadPacket);
    }
    let mut tx_bytes: Vec<u8> = Vec::new();
    let mut j: usize = 0;
    while j < tx_len
        invariant
            j <= tx_len,
            tx_len <= 255,
            data@ == d,
            d.len() >= 4 + tx_len,
            tx_bytes@ == d.subrange(3, 3 + j),
        decreases tx_len - j,
    {
        tx_bytes.push(data[3 + j]);
        assert(tx_bytes@ =~= d.subrange(3, 3 + j + 1));
        j = j + 1;
    }
    let rx_len: usize = data[3 + tx_len] as usize;
    if rx_len > data.len() - 4 - tx_len {
        return Err(OctopipesError::BadPacket);
    }
    let mut rx_bytes: Vec<u8> = Vec::new();
    let mut j: usize = 0;
    while j < rx_len
        invariant
            j <= rx_len,
            tx_len <= 255,
            rx_len <= 255,
            data@ == d,
            d.len() >= 4 + tx_len + rx_len,
            rx_bytes@ == d.subrange(4 + tx_len, 4 + tx_len + j),
        decreases rx_len - j,
    {
        rx_bytes.push(data[4 + tx_len + j]);
        assert(rx_bytes@ =~= d.subrange(4 + tx_len, 4 + tx_len + j + 1));
        j = j + 1;
    }
    let pipe_tx = bytes_to_string(&tx_bytes);
    let pipe_rx = bytes_to_string(&rx_bytes);
    Ok((cap_error, Some(pipe_tx), Some(pipe_rx)))
}

/// Decodes an Unsubscription payload: its single type byte.
pub fn decode_unsubscribe(data: &Vec<u8>) -> (r: Result<OctopipesCapMessage, OctopipesError>)
    ensures
        r == (if data@.len() >= 1 && data@[0] == 0x02 {
            Ok::<OctopipesCapMessage, OctopipesError>(OctopipesCapMessage::Unsubscription)
        } else {
            Err::<OctopipesCapMessage, OctopipesError>(OctopipesError::BadPacket)
        }),
{
    if data.len() < 1 {
        return Err(OctopipesError::BadPacket);
    }
    if data[0] != 0x02 {
        return Err(OctopipesError::BadPacket);
    }
    Ok(OctopipesCapMessage::Unsubscription)
}

/// Parsing the body that a group list was written as gives the groups back.
proof fn lemma_parse_groups_of_body(groups: Seq<Seq<u8>>, d: Seq<u8>, idx: int)
    requires
        forall|j: int| 0 <= j < groups.len() ==> (#[trigger] groups[j]).len() <= 255,
        0 <= idx,
        idx + groups_body(groups).len() <= d.len(),
        d.subrange(idx, idx + groups_body(groups).len() as int) == groups_body(groups),
    ensures
        parse_groups(d, idx, groups.len() as int) == Some(groups),
    decreases groups.len(),
{
    if groups.len() == 0 {
        assert(parse_groups(d, idx, 0) == Some(Seq::<Seq<u8>>::empty()));
        assert(groups =~= Seq::<Seq<u8>>::empty());
    } else {
        let g = groups.first();
        let rest = groups.drop_first();
        let body = groups_body(groups);
        let rest_body = groups_body(rest);
        assert(body == seq![g.len() as u8] + g + rest_body);
        assert(body.len() == 1 + g.len() + rest_body.len());
        assert(d[idx] == body[0]);
        assert(body[0] == g.len() as u8);
        assert(d[idx] as int == g.len() as int);
        assert(idx + 1 + g.len() <= d.len());
        assert(forall|t: int| 0 <= t < body.len() ==> d[idx + t] == body[t]) by {
            assert(d.subrange(idx, idx + body.len() as int) == body);
        }
        assert forall|t: int| 0 <= t < g.len() implies d[idx + 1 + t] == g[t] by {
            assert(body[1 + t] == g[t]);
            assert(d[idx + 1 + t] == body[1 + t]);
        }
        assert(d.subrange(idx + 1, idx + 1 + g.len() as int) =~= g);
        assert forall|t: int| 0 <= t < rest_body.len() implies d[idx + 1 + g.len() + t]
            == rest_body[t] by {
            assert(body[1 + g.len() + t] == rest_body[t]);
            assert(d[idx + 1 + g.len() + t] == body[1 + g.len() + t]);
        }
        assert(d.subrange(
            idx + 1 + g.len() as int,
            idx + 1 + g.len() + rest_body.len() as int,
        ) =~= rest_body);
        lemma_parse_groups_of_body(rest, d, idx + 1 + g.len() as int);
        assert(parse_groups(d, idx + 1 + g.len() as int, rest.len() as int) == Some(rest));
        assert(seq![d.subrange(idx + 1, idx + 1 + g.len() as int)] + rest =~= groups);
    }
}

/// Round trip of the Subscription payload: decoding what was encoded for a
/// group list of at most 255 names, each of at most 255 bytes, gives the list
/// back.
pub proof fn lemma_subscribe_round_trip(groups: Seq<Seq<u8>>)
    requires
        groups.len() <= 255,
        forall|j: int| 0 <= j < groups.len() ==> (#[trigger] groups[j]).len() <= 255,
    ensures
        decode_subscribe_spec(subscribe_payload(groups)) == Ok::<Seq<Seq<u8>>, OctopipesError>(
            groups,
        ),
{
    let p = subscribe_payload(groups);
    assert(p.len() >= 2);
    assert(p[0] == 0x01);
    assert(p[1] == groups.len() as u8);
    assert(p[1] as int == groups.len() as int);
    assert(p.subrange(2, 2 + groups_body(groups).len() as int) =~= groups_body(groups));
    lemma_parse_groups_of_body(groups, p, 2);
}

/// Round trip of the Assignment payload carrying two paths and no error.
pub proof fn lemma_assignment_round_trip(tx: Seq<u8>, rx: Seq<u8>)
    requires
        tx.len() <= 255,
        rx.len() <= 255,
    ensures
        decode_assignment_spec(assignment_payload(0, Some(tx), Some(rx))) == Ok::<
            (u8, Option<Seq<u8>>, Option<Seq<u8>>),
            OctopipesError,
        >((0, Some(tx), Some(rx))),
{
    let p = assignment_payload(0, Some(tx), Some(rx));
    assert(p.len() == 4 + tx.len() + rx.len());
    assert(p[0] == 0xff);
    assert(p[1] == 0);
    assert(p[2] as int == tx.len() as int);
    assert(p[3 + tx.len() as int] as int == rx.len() as int);
    assert(p.subrange(3, 3 + tx.len() as int) =~= tx);
    assert(p.subrange(4 + tx.len() as int, 4 + tx.len() + rx.len() as int) =~= rx);
}

/// Round trip of the Assignment payload carrying an error and no paths.
pub proof fn lemma_assignment_error_round_trip(error: OctopipesCapError)
    requires
        error != OctopipesCapError::NoError,
    ensures
        decode_assignment_spec(assignment_payload(error.spec_u8(), None, None)) == Ok::<
            (u8, Option<Seq<u8>>, Option<Seq<u8>>),
            OctopipesError,
        >((error.spec_u8(), None, None)),
{
    let p = assignment_payload(error.spec_u8(), None, None);
    assert(p.len() == 2);
    assert(p[0] == 0xff);
    assert(p[1] == error.spec_u8());
}

/// Round trip of the Unsubscription payload.
pub proof fn lemma_unsubscribe_round_trip()
    ensures
        unsubscribe_payload().len() >= 1 && unsubscribe_payload()[0] == 0x02,
{
    assert(unsubscribe_payload()[0] == 0x02);
}

/// Reading an ASCII byte string as characters and writing those characters
/// back as bytes changes nothing, so group names and paths of ASCII text
/// survive the string round trip.
pub proof fn lemma_ascii_chars_round_trip(s: Seq<char>)
    requires
        vstd::utf8::is_ascii_chars(s),
    ensures
        bytes_as_chars(chars_as_bytes(s)) == s,
{
    vstd::utf8::is_ascii_chars_encode_utf8(s);
    vstd::utf8::is_ascii_chars_nat_bound(s);
    assert(bytes_as_chars(chars_as_bytes(s)) =~= s);
}

} // verus!
