//! The pipeline's laws, stated and proved once for all inputs: what decoding
//! recovers from a well-formed payload, that the malformed-number verdict
//! never reads the sensor name, and that every persisted row is attributed
//! to a known sensor.

use vstd::prelude::*;

use crate::envpayload::numeric_fields_ok;
use crate::pipeline::persisted_rows;
use crate::store::{find_sensor, SensorRecord};
use crate::text::{is_space, split_acc, tokens_of};

verus! {

/// A well-formed wire token: non-empty, with no separator inside.
pub open spec fn wf_token(t: Seq<char>) -> bool {
    t.len() > 0 && forall|i: int| 0 <= i < t.len() ==> !is_space(t[i])
}

/// Five tokens joined by single spaces: the canonical wire payload.
pub open spec fn joined5(
    a: Seq<char>,
    b: Seq<char>,
    c: Seq<char>,
    d: Seq<char>,
    e: Seq<char>,
) -> Seq<char> {
    a + seq![' '] + b + seq![' '] + c + seq![' '] + d + seq![' '] + e
}

/// Splitting walks through a separator-free run by absorbing it into the
/// token being collected.
proof fn lemma_split_acc_absorbs(tok: Seq<char>, rest: Seq<char>, cur: Seq<char>)
    requires
        forall|i: int| 0 <= i < tok.len() ==> !is_space(tok[i]),
    ensures
        split_acc(tok + rest, cur) == split_acc(rest, cur + tok),
    decreases tok.len(),
{
    if tok.len() == 0 {
        assert(tok + rest =~= rest);
        assert(cur + tok =~= cur);
    } else {
        let s = tok + rest;
        assert(s[0] == tok[0]);
        assert(s.drop_first() =~= tok.drop_first() + rest);
        lemma_split_acc_absorbs(tok.drop_first(), rest, cur.push(tok[0]));
        assert(cur.push(tok[0]) + tok.drop_first() =~= cur + tok);
    }
}

/// A well-formed token followed by a space splits off as one token.
proof fn lemma_token_then_space(t: Seq<char>, rest: Seq<char>)
    requires
        wf_token(t),
    ensures
        split_acc(t + seq![' '] + rest, Seq::empty()) == seq![t] + split_acc(rest, Seq::empty()),
{
    let sp = seq![' '];
    assert(t + sp + rest =~= t + (sp + rest));
    lemma_split_acc_absorbs(t, sp + rest, Seq::empty());
    assert(Seq::empty() + t =~= t);
    let s = sp + rest;
    assert(s[0] == ' ' && is_space(s[0]));
    assert(s.drop_first() =~= rest);
}

/// A trailing well-formed token splits off as one token.
proof fn lemma_last_token(t: Seq<char>)
    requires
        wf_token(t),
    ensures
        split_acc(t, Seq::empty()) == seq![t],
{
    lemma_split_acc_absorbs(t, Seq::empty(), Seq::empty());
    assert(t + Seq::<char>::empty() =~= t);
    assert(Seq::<char>::empty() + t =~= t);
}

/// Tokenization recovers the five tokens of a canonical payload exactly.
/// With the decoder's contract this says: for any sensor name without
/// embedded separators and any four numeric tokens, decoding their joined
/// payload succeeds and yields exactly those fields.
pub proof fn lemma_tokens_of_joined5(
    a: Seq<char>,
    b: Seq<char>,
    c: Seq<char>,
    d: Seq<char>,
    e: Seq<char>,
)
    requires
        wf_token(a),
        wf_token(b),
        wf_token(c),
        wf_token(d),
        wf_token(e),
    ensures
        tokens_of(joined5(a, b, c, d, e)) == seq![a, b, c, d, e],
        tokens_of(joined5(a, b, c, d, e)).len() == 5,
{
    let sp = seq![' '];
    let r3 = d + sp + e;
    let r2 = c + sp + r3;
    let r1 = b + sp + r2;
    assert(joined5(a, b, c, d, e) =~= a + sp + r1);
    assert(r1 =~= b + sp + r2);
    assert(r2 =~= c + sp + r3);
    lemma_token_then_space(a, r1);
    lemma_token_then_space(b, r2);
    lemma_token_then_space(c, r3);
    lemma_token_then_space(d, e);
    lemma_last_token(e);
    assert(seq![a] + (seq![b] + (seq![c] + (seq![d] + seq![e]))) =~= seq![a, b, c, d, e]);
    assert(tokens_of(joined5(a, b, c, d, e)) =~= seq![a, b, c, d, e]);
}

/// When a canonical payload's four numeric tokens are numeric text, the
/// decoder's success condition holds of it.
pub proof fn lemma_joined5_decodes(
    name: Seq<char>,
    t: Seq<char>,
    p: Seq<char>,
    h: Seq<char>,
    l: Seq<char>,
)
    requires
        wf_token(name),
        wf_token(t) && crate::numeric::is_numeric_text(t),
        wf_token(p) && crate::numeric::is_numeric_text(p),
        wf_token(h) && crate::numeric::is_numeric_text(h),
        wf_token(l) && crate::numeric::is_numeric_text(l),
    ensures
        tokens_of(joined5(name, t, p, h, l)) == seq![name, t, p, h, l],
        numeric_fields_ok(tokens_of(joined5(name, t, p, h, l))),
{
    lemma_tokens_of_joined5(name, t, p, h, l);
    assert(seq![name, t, p, h, l][1] == t);
    assert(seq![name, t, p, h, l][2] == p);
    assert(seq![name, t, p, h, l][3] == h);
    assert(seq![name, t, p, h, l][4] == l);
}

/// The malformed-number verdict reads only the four numeric tokens: two
/// payloads that agree on tokens two through five get the same verdict,
/// whatever their first tokens hold.
pub proof fn lemma_verdict_ignores_name(toks1: Seq<Seq<char>>, toks2: Seq<Seq<char>>)
    requires
        toks1.len() >= 5,
        toks2.len() >= 5,
        forall|i: int| 1 <= i < 5 ==> toks1[i] == toks2[i],
    ensures
        numeric_fields_ok(toks1) == numeric_fields_ok(toks2),
{
    assert(toks1[1] == toks2[1]);
    assert(toks1[2] == toks2[2]);
    assert(toks1[3] == toks2[3]);
    assert(toks1[4] == toks2[4]);
}

/// A successful resolution names a sensor that is in the store.
proof fn lemma_find_sensor_witness(sensors: Seq<SensorRecord>, name: Seq<char>)
    requires
        find_sensor(sensors, name) is Some,
    ensures
        exists|i: int|
            0 <= i < sensors.len() && #[trigger] sensors[i].id == find_sensor(
                sensors,
                name,
            )->Some_0,
    decreases sensors.len(),
{
    if sensors[0].name@ == name {
        assert(sensors[0].id == find_sensor(sensors, name)->Some_0);
    } else {
        lemma_find_sensor_witness(sensors.drop_first(), name);
        let i = choose|i: int|
            0 <= i < sensors.drop_first().len() && #[trigger] sensors.drop_first()[i].id
                == find_sensor(sensors.drop_first(), name)->Some_0;
        assert(sensors[i + 1].id == find_sensor(sensors, name)->Some_0);
    }
}

/// When every queued reading names a known sensor, draining appends exactly
/// one row per reading: none is lost and none is written twice, however the
/// producers interleaved their sends.
pub proof fn lemma_all_known_all_persisted(
    sensors: Seq<SensorRecord>,
    rs: Seq<crate::envpayload::EnvSensorReading>,
)
    requires
        forall|k: int|
            0 <= k < rs.len() ==> find_sensor(sensors, #[trigger] rs[k].sensor.name@) is Some,
    ensures
        persisted_rows(sensors, rs).len() == rs.len(),
    decreases rs.len(),
{
    if rs.len() > 0 {
        assert(find_sensor(sensors, rs[rs.len() - 1].sensor.name@) is Some);
        lemma_all_known_all_persisted(sensors, rs.drop_last());
    }
}

/// Whether a row's stored identity is that of some sensor in the store.
pub open spec fn row_attributed(sensors: Seq<SensorRecord>, row: crate::store::ReadingRow) -> bool {
    exists|i: int| 0 <= i < sensors.len() && #[trigger] sensors[i].id == row.sensor_id
}

/// Every row the pipeline appends is attributed to a known sensor: its
/// stored identity is the identity of some sensor in the store.
pub proof fn lemma_rows_attributed(
    sensors: Seq<SensorRecord>,
    rs: Seq<crate::envpayload::EnvSensorReading>,
)
    ensures
        forall|k: int|
            0 <= k < persisted_rows(sensors, rs).len() ==> row_attributed(
                sensors,
                #[trigger] persisted_rows(sensors, rs)[k],
            ),
    decreases rs.len(),
{
    if rs.len() > 0 {
        lemma_rows_attributed(sensors, rs.drop_last());
        let pre = persisted_rows(sensors, rs.drop_last());
        let all = persisted_rows(sensors, rs);
        assert forall|k: int| 0 <= k < all.len() implies row_attributed(sensors, all[k]) by {
            if k < pre.len() {
                assert(all[k] == pre[k]);
                assert(row_attributed(sensors, pre[k]));
            } else {
                let id = find_sensor(sensors, rs.last().sensor.name@)->Some_0;
                lemma_find_sensor_witness(sensors, rs.last().sensor.name@);
                assert(all[k].sensor_id == id);
            }
        }
    }
}

} // verus!
