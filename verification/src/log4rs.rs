//! The encoder that writes each Auth0 alert as one record to a log4rs logger.

use vstd::prelude::*;

use crate::encode::{texts, Encode, EncodeError, EncodeOutcome, EncodeSettings};
use crate::json::{json_array, json_as_array, json_text, json_to_string};

verus! {

/// Settings of the log4rs encoder.
#[derive(Debug)]
pub struct Log4rsEncoderSettings {
    pub enable: Option<bool>,
    pub logger_name: String,
}

impl Clone for Log4rsEncoderSettings {
    fn clone(&self) -> (s: Self)
        ensures
            s == *self,
    {
        Log4rsEncoderSettings { enable: self.enable, logger_name: self.logger_name.clone() }
    }
}

impl EncodeSettings for Log4rsEncoderSettings {
}

/// The encoder that writes each alert as one record to the logger named in
/// its settings.
#[derive(Debug)]
pub struct Log4rsEncoder {
    pub settings: Log4rsEncoderSettings,
}

impl Clone for Log4rsEncoder {
    fn clone(&self) -> (e: Self)
        ensures
            e == *self,
    {
        Log4rsEncoder { settings: self.settings.clone() }
    }
}

/// One alert of a batch, with each JSON value already written out: `Ok` holds
/// the JSON text of the value, `Err` the message of the error that writing it
/// out gave.
pub enum Alert {
    /// An alert that is a single JSON value.
    Single(Result<String, String>),
    /// An alert that is itself an array of values.
    Batch(Vec<Result<String, String>>),
}

/// A batch of data handed to the encoder.
pub enum Payload {
    /// The data was not a JSON array.
    NotArray,
    /// The data was a JSON array of these alerts.
    Array(Vec<Alert>),
}

/// The message given for data that is not a JSON array.
pub open spec fn not_array_message() -> Seq<char> {
    "data is not a JSON array. Make sure to configure Auth0 log stream to JSON Array"@
}

/// The record written for a value whose JSON text is `json`: an object with
/// the value under `auth0alert` and `auth0` under `event`.
pub open spec fn record_text(json: Seq<char>) -> Seq<char> {
    "{\"auth0alert\":"@ + json + ",\"event\":\"auth0\"}"@
}

/// The values an alert stands for: itself, or the elements of an array.
pub open spec fn alert_values(a: Alert) -> Seq<Result<String, String>> {
    match a {
        Alert::Single(v) => seq![v],
        Alert::Batch(vs) => vs@,
    }
}

/// The values of all alerts, in order.
pub open spec fn flatten_alerts(alerts: Seq<Alert>) -> Seq<Result<String, String>>
    decreases alerts.len(),
{
    if alerts.len() == 0 {
        seq![]
    } else {
        flatten_alerts(alerts.drop_last()) + alert_values(alerts.last())
    }
}

/// The records written for `values`, one per value in order up to the first
/// value that could not be written out, and that value's error message.
pub open spec fn emit(values: Seq<Result<String, String>>) -> (Seq<Seq<char>>, Option<Seq<char>>)
    decreases values.len(),
{
    if values.len() == 0 {
        (seq![], None)
    } else {
        match values[0] {
            Err(m) => (seq![], Some(m@)),
            Ok(t) => {
                let rest = emit(values.drop_first());
                (seq![record_text(t@)] + rest.0, rest.1)
            },
        }
    }
}

/// The written-out form of a JSON value: the text `serde_json` writes for it.
pub open spec fn value_models(w: Result<String, String>, v: serde_json::Value) -> bool {
    w matches Ok(t) && t@ == json_text(v)
}

/// `a` is the written-out form of the alert `v`.
pub open spec fn alert_models(a: Alert, v: serde_json::Value) -> bool {
    match json_array(v) {
        Some(items) => a matches Alert::Batch(ws) && ws.len() == items.len() && forall|i: int|
            0 <= i < items.len() ==> #[trigger] value_models(ws@[i], items[i]),
        None => a matches Alert::Single(w) && value_models(w, v),
    }
}

/// `p` is the written-out form of the data `data`.
pub open spec fn payload_models(p: Payload, data: serde_json::Value) -> bool {
    match json_array(data) {
        None => p is NotArray,
        Some(alerts) => p matches Payload::Array(a) && a.len() == alerts.len() && forall|i: int|
            0 <= i < alerts.len() ==> #[trigger] alert_models(a@[i], alerts[i]),
    }
}

/// The values an alert stands for: itself, or the elements of an array.
pub open spec fn alert_items(v: serde_json::Value) -> Seq<serde_json::Value> {
    match json_array(v) {
        Some(items) => items,
        None => seq![v],
    }
}

/// The values of all alerts, in order.
pub open spec fn flat_values(alerts: Seq<serde_json::Value>) -> Seq<serde_json::Value>
    decreases alerts.len(),
{
    if alerts.len() == 0 {
        seq![]
    } else {
        flat_values(alerts.drop_last()) + alert_items(alerts.last())
    }
}

/// The records written for a batch of alerts: one per value, in order, each
/// the record of the value's JSON text.
pub open spec fn value_records(alerts: Seq<serde_json::Value>) -> Seq<Seq<char>> {
    flat_values(alerts).map_values(|v: serde_json::Value| record_text(json_text(v)))
}

/// Each of `ws` is the written-out form of the value in the same place of `vs`.
pub open spec fn written_as(ws: Seq<Result<String, String>>, vs: Seq<serde_json::Value>) -> bool {
    &&& ws.len() == vs.len()
    &&& forall|j: int| 0 <= j < ws.len() ==> #[trigger] value_models(ws[j], vs[j])
}

impl Log4rsEncoder {
    /// `out` is what this encoder produces for the data `data`: records go to
    /// the configured logger; data that is not an array gives no record and
    /// the fixed error; an array succeeds, with one record per value, alerts
    /// that are arrays contributing each of their elements.
    pub open spec fn encodes_value(self, data: serde_json::Value, out: EncodeOutcome) -> bool {
        &&& out.target@ == self.settings.logger_name@
        &&& match json_array(data) {
            None => {
                &&& out.records@.len() == 0
                &&& out.result matches Err(e) && e@ == not_array_message()
            },
            Some(alerts) => {
                &&& out.result is Ok
                &&& texts(out.records@) == value_records(alerts)
            },
        }
    }

    /// An encoder with the given settings.
    pub fn new(s: Log4rsEncoderSettings) -> (e: Log4rsEncoder)
        ensures
            e.settings == s,
    {
        Log4rsEncoder { settings: s }
    }

    /// `out` is what this encoder produces for the batch `payload`: records go
    /// to the configured logger; data that is not an array gives no record and
    /// the fixed error; otherwise one record per value, alerts that are arrays
    /// contributing each of their elements, up to the first value that cannot
    /// be written out, whose message is then the error.
    pub open spec fn encodes(self, payload: Payload, out: EncodeOutcome) -> bool {
        &&& out.target@ == self.settings.logger_name@
        &&& match payload {
            Payload::NotArray => {
                &&& out.records@.len() == 0
                &&& out.result matches Err(e) && e@ == not_array_message()
            },
            Payload::Array(alerts) => {
                let (records, error) = emit(flatten_alerts(alerts@));
                &&& texts(out.records@) == records
                &&& match error {
                    None => out.result is Ok,
                    Some(m) => out.result matches Err(e) && e@ == m,
                }
            },
        }
    }

    /// Encodes a batch whose values have been written out already.
    pub fn encode_payload(&self, payload: &Payload) -> (out: EncodeOutcome)
        ensures
            self.encodes(*payload, out),
    {
        let target = self.settings.logger_name.clone();
        match payload {
            Payload::NotArray => EncodeOutcome {
                target,
                records: Vec::new(),
                result: Err(
                    EncodeError::new(
                        "data is not a JSON array. Make sure to configure Auth0 log stream to JSON Array",
                    ),
                ),
            },
            Payload::Array(alerts) => {
                let values = flatten(alerts);
                let (records, result) = emit_records(&values);
                EncodeOutcome { target, records, result }
            },
        }
    }
}

impl Encode for Log4rsEncoder {
    /// Writes out each value of `data` with `serde_json` and encodes the
    /// result as `encode_payload` does.
    fn encode(&self, data: &serde_json::Value) -> (out: EncodeOutcome)
        ensures
            self.encodes_value(*data, out),
    {
        let p = payload_of(data);
        let out = self.encode_payload(&p);
        proof {
            if let Payload::Array(a) = p {
                let alerts = json_array(*data)->0;
                lemma_written(a@, alerts);
                let ws = flatten_alerts(a@);
                assert forall|i: int| 0 <= i < ws.len() implies #[trigger] ws[i] is Ok by {
                    assert(value_models(ws[i], flat_values(alerts)[i]));
                }
                lemma_emit_all_ok(ws);
                assert forall|i: int| 0 <= i < ws.len() implies #[trigger] emit(ws).0[i]
                    == value_records(alerts)[i] by {
                    assert(value_models(ws[i], flat_values(alerts)[i]));
                }
                assert(emit(ws).0 =~= value_records(alerts));
            }
        }
        out
    }

    /// The encoder's name, `log4rs-encode`.
    fn name(&self) -> (n: String)
        ensures
            n@ == "log4rs-encode"@,
    {
        String::from_str("log4rs-encode")
    }
}

/// The written-out form of a JSON value: its JSON text, or the message of the
/// error that `serde_json` gave.
pub fn write_out(v: &serde_json::Value) -> (w: Result<String, String>)
    ensures
        value_models(w, *v),
{
    match json_to_string(v) {
        Ok(s) => Ok(s),
        Err(e) => Err(e.to_string()),
    }
}

/// The written-out form of one alert.
pub fn alert_of(v: &serde_json::Value) -> (a: Alert)
    ensures
        alert_models(a, *v),
{
    match json_as_array(v) {
        Some(items) => {
            let mut ws: Vec<Result<String, String>> = Vec::new();
            let n = items.len();
            for j in 0..n
                invariant
                    n == items@.len(),
                    json_array(*v) == Some(items@),
                    ws@.len() == j,
                    forall|k: int| 0 <= k < j ==> #[trigger] value_models(ws@[k], items@[k]),
            {
                let w = write_out(&items[j]);
                ws.push(w);
            }
            Alert::Batch(ws)
        },
        None => Alert::Single(write_out(v)),
    }
}

/// The written-out form of a batch of data.
pub fn payload_of(data: &serde_json::Value) -> (p: Payload)
    ensures
        payload_models(p, *data),
{
    match json_as_array(data) {
        Some(alerts) => {
            let mut a: Vec<Alert> = Vec::new();
            let n = alerts.len();
            for i in 0..n
                invariant
                    n == alerts@.len(),
                    json_array(*data) == Some(alerts@),
                    a@.len() == i,
                    forall|k: int| 0 <= k < i ==> #[trigger] alert_models(a@[k], alerts@[k]),
            {
                let x = alert_of(&alerts[i]);
                a.push(x);
            }
            Payload::Array(a)
        },
        None => Payload::NotArray,
    }
}

/// The record for a value whose JSON text is `json`.
pub fn record_for(json: &str) -> (r: String)
    ensures
        r@ == record_text(json@),
        r@ == "{\"auth0alert\":"@ + json@ + ",\"event\":\"auth0\"}"@,
{
    let mut r = String::from_str("{\"auth0alert\":");
    r.append(json);
    r.append(",\"event\":\"auth0\"}");
    r
}

fn clone_value(w: &Result<String, String>) -> (r: Result<String, String>)
    ensures
        r == *w,
{
    match w {
        Ok(t) => Ok(t.clone()),
        Err(m) => Err(m.clone()),
    }
}

/// The values of all alerts, in order.
fn flatten(alerts: &Vec<Alert>) -> (values: Vec<Result<String, String>>)
    ensures
        values@ == flatten_alerts(alerts@),
{
    let mut values: Vec<Result<String, String>> = Vec::new();
    let n = alerts.len();
    for i in 0..n
        invariant
            n == alerts@.len(),
            values@ == flatten_alerts(alerts@.take(i as int)),
    {
        assert(alerts@.take(i + 1).drop_last() =~= alerts@.take(i as int));
        match &alerts[i] {
            Alert::Single(w) => {
                values.push(clone_value(w));
            },
            Alert::Batch(ws) => {
                let ghost before = values@;
                let m = ws.len();
                for j in 0..m
                    invariant
                        m == ws@.len(),
                        values@ == before + ws@.take(j as int),
                {
                    assert(ws@.take(j + 1) =~= ws@.take(j as int).push(ws@[j as int]));
                    values.push(clone_value(&ws[j]));
                }
                assert(ws@.take(m as int) =~= ws@);
            },
        }
        assert(values@ =~= flatten_alerts(alerts@.take(i + 1)));
    }
    assert(alerts@.take(n as int) =~= alerts@);
    values
}

/// The records for `values` up to the first one that could not be written
/// out, and the result: that value's error, or success.
fn emit_records(values: &Vec<Result<String, String>>) -> (r: (Vec<String>, Result<(), EncodeError>))
    ensures
        texts(r.0@) == emit(values@).0,
        match emit(values@).1 {
            None => r.1 is Ok,
            Some(m) => r.1 matches Err(e) && e@ == m,
        },
{
    let mut records: Vec<String> = Vec::new();
    let n = values.len();
    assert(values@.skip(0) =~= values@);
    assert(texts(records@) =~= seq![]);
    for i in 0..n
        invariant
            n == values@.len(),
            emit(values@).0 == texts(records@) + emit(values@.skip(i as int)).0,
            emit(values@).1 == emit(values@.skip(i as int)).1,
    {
        assert(values@.skip(i as int).drop_first() =~= values@.skip(i + 1));
        match &values[i] {
            Ok(t) => {
                records.push(record_for(t.as_str()));
                assert(texts(records@) =~= texts(records@.drop_last()) + seq![record_text(t@)]);
            },
            Err(m) => {
                return (records, Err(EncodeError::new(m.as_str())));
            },
        }
    }
    (records, Ok(()))
}

} // verus!

verus! {

proof fn lemma_written_append(
    w1: Seq<Result<String, String>>,
    v1: Seq<serde_json::Value>,
    w2: Seq<Result<String, String>>,
    v2: Seq<serde_json::Value>,
)
    requires
        written_as(w1, v1),
        written_as(w2, v2),
    ensures
        written_as(w1 + w2, v1 + v2),
{
    assert forall|j: int| 0 <= j < (w1 + w2).len() implies #[trigger] value_models(
        (w1 + w2)[j],
        (v1 + v2)[j],
    ) by {
        if j < w1.len() {
            assert(value_models(w1[j], v1[j]));
        } else {
            assert(value_models(w2[j - w1.len()], v2[j - w1.len()]));
        }
    }
}

/// The written-out forms of a batch of alerts, flattened, are the written-out
/// forms of the batch's values, flattened.
proof fn lemma_written(a: Seq<Alert>, vs: Seq<serde_json::Value>)
    requires
        a.len() == vs.len(),
        forall|i: int| 0 <= i < a.len() ==> #[trigger] alert_models(a[i], vs[i]),
    ensures
        written_as(flatten_alerts(a), flat_values(vs)),
    decreases a.len(),
{
    if a.len() > 0 {
        let a0 = a.drop_last();
        let v0 = vs.drop_last();
        assert forall|i: int| 0 <= i < a0.len() implies #[trigger] alert_models(a0[i], v0[i]) by {
            assert(alert_models(a[i], vs[i]));
        }
        lemma_written(a0, v0);
        assert(alert_models(a[a.len() - 1], vs[vs.len() - 1]));
        let x = a.last();
        let v = vs.last();
        assert(written_as(alert_values(x), alert_items(v))) by {
            match json_array(v) {
                Some(items) => {
                    if let Alert::Batch(ws) = x {
                        assert forall|j: int| 0 <= j < ws@.len() implies #[trigger] value_models(
                            ws@[j],
                            items[j],
                        ) by {
                            assert(value_models(ws@[j], items[j]));
                        }
                    }
                },
                None => {},
            }
        }
        lemma_written_append(flatten_alerts(a0), flat_values(v0), alert_values(x), alert_items(v));
    }
}

/// The values of two runs of JSON alerts, one after the other, are the
/// values of the first followed by those of the second.
pub proof fn lemma_flat_values_append(a: Seq<serde_json::Value>, b: Seq<serde_json::Value>)
    ensures
        flat_values(a + b) == flat_values(a) + flat_values(b),
    decreases b.len(),
{
    if b.len() == 0 {
        assert(a + b =~= a);
        assert(flat_values(b) =~= seq![]);
        assert(flat_values(a) + flat_values(b) =~= flat_values(a));
    } else {
        lemma_flat_values_append(a, b.drop_last());
        assert((a + b).drop_last() =~= a + b.drop_last());
        assert((a + b).last() == b.last());
        assert(flat_values(a + b) =~= flat_values(a) + flat_values(b));
    }
}

/// Encoding fails exactly when the data is not a JSON array, and a failed
/// encoding writes no record.
pub proof fn law_fails_iff_not_array(enc: Log4rsEncoder, data: serde_json::Value, out: EncodeOutcome)
    requires
        enc.encodes_value(data, out),
    ensures
        out.result is Err <==> json_array(data) is None,
        out.result is Err ==> out.records@.len() == 0,
        out.result matches Err(e) ==> e@
            == "data is not a JSON array. Make sure to configure Auth0 log stream to JSON Array"@,
{
}

/// The JSON array made of the alerts of two arrays, one after the other, is
/// encoded in full, into the records of the first followed by those of the
/// second.
pub proof fn law_arrays_concatenate(
    enc: Log4rsEncoder,
    a: serde_json::Value,
    b: serde_json::Value,
    c: serde_json::Value,
    out_a: EncodeOutcome,
    out_b: EncodeOutcome,
    out_c: EncodeOutcome,
)
    requires
        json_array(a) is Some,
        json_array(b) is Some,
        json_array(c) == Some(json_array(a)->0 + json_array(b)->0),
        enc.encodes_value(a, out_a),
        enc.encodes_value(b, out_b),
        enc.encodes_value(c, out_c),
    ensures
        out_c.result is Ok,
        texts(out_c.records@) == texts(out_a.records@) + texts(out_b.records@),
{
    let xa = json_array(a)->0;
    let xb = json_array(b)->0;
    lemma_flat_values_append(xa, xb);
    assert(value_records(xa + xb) =~= value_records(xa) + value_records(xb));
}

/// The values of two runs of alerts, one after the other, are the values of
/// the first followed by those of the second.
pub proof fn lemma_flatten_append(a: Seq<Alert>, b: Seq<Alert>)
    ensures
        flatten_alerts(a + b) == flatten_alerts(a) + flatten_alerts(b),
    decreases b.len(),
{
    if b.len() == 0 {
        assert(a + b =~= a);
        assert(flatten_alerts(b) =~= seq![]);
        assert(flatten_alerts(a) + flatten_alerts(b) =~= flatten_alerts(a));
    } else {
        lemma_flatten_append(a, b.drop_last());
        assert((a + b).drop_last() =~= a + b.drop_last());
        assert((a + b).last() == b.last());
        assert(flatten_alerts(a + b) =~= flatten_alerts(a) + flatten_alerts(b));
    }
}

/// The alerts that each hold one of `ws`, in order.
pub open spec fn singles(ws: Seq<Result<String, String>>) -> Seq<Alert> {
    ws.map_values(|w: Result<String, String>| Alert::Single(w))
}

proof fn lemma_flatten_singles(ws: Seq<Result<String, String>>)
    ensures
        flatten_alerts(singles(ws)) == ws,
    decreases ws.len(),
{
    if ws.len() == 0 {
        assert(singles(ws) =~= seq![]);
    } else {
        lemma_flatten_singles(ws.drop_last());
        assert(singles(ws).drop_last() =~= singles(ws.drop_last()));
        assert(flatten_alerts(singles(ws)) =~= ws);
    }
}

/// An alert that is an array is encoded as its elements would be, each given
/// as an alert of its own, in the same place of the batch: the records and the
/// result are the same.
pub proof fn law_array_alert_as_its_elements(
    enc: Log4rsEncoder,
    pre: Seq<Alert>,
    ws: Vec<Result<String, String>>,
    post: Seq<Alert>,
    nested: Vec<Alert>,
    spread: Vec<Alert>,
    out: EncodeOutcome,
)
    requires
        nested@ == pre + seq![Alert::Batch(ws)] + post,
        spread@ == pre + singles(ws@) + post,
    ensures
        enc.encodes(Payload::Array(nested), out) <==> enc.encodes(Payload::Array(spread), out),
{
    lemma_flatten_append(pre + seq![Alert::Batch(ws)], post);
    lemma_flatten_append(pre, seq![Alert::Batch(ws)]);
    lemma_flatten_append(pre + singles(ws@), post);
    lemma_flatten_append(pre, singles(ws@));
    lemma_flatten_singles(ws@);
    assert(flatten_alerts(seq![Alert::Batch(ws)]) =~= ws@) by {
        reveal_with_fuel(flatten_alerts, 2);
        assert(seq![Alert::Batch(ws)].drop_last() =~= Seq::<Alert>::empty());
    }
    assert(flatten_alerts(nested@) =~= flatten_alerts(spread@));
}

/// When every value of `a` was written out, the records for `a` followed by
/// `b` are the records of `a` followed by those of `b`, with `b`'s result;
/// when some value of `a` was not, nothing of `b` is encoded.
pub proof fn lemma_emit_append(a: Seq<Result<String, String>>, b: Seq<Result<String, String>>)
    ensures
        emit(a).1 is None ==> emit(a + b) == (emit(a).0 + emit(b).0, emit(b).1),
        emit(a).1 is Some ==> emit(a + b) == emit(a),
    decreases a.len(),
{
    if a.len() == 0 {
        assert(a + b =~= b);
        assert(emit(a).0 + emit(b).0 =~= emit(b).0);
    } else {
        assert((a + b)[0] == a[0]);
        assert((a + b).drop_first() =~= a.drop_first() + b);
        lemma_emit_append(a.drop_first(), b);
        match a[0] {
            Ok(t) => {
                assert(seq![record_text(t@)] + emit(a.drop_first()).0 + emit(b).0
                    =~= seq![record_text(t@)] + (emit(a.drop_first()).0 + emit(b).0));
            },
            Err(_) => {},
        }
    }
}

/// A batch in which every value was written out is encoded in full: the result
/// is success and there is one record per value, in order, each the record of
/// that value's JSON text.
pub proof fn law_all_written_all_recorded(enc: Log4rsEncoder, alerts: Vec<Alert>, out: EncodeOutcome)
    requires
        forall|i: int|
            0 <= i < flatten_alerts(alerts@).len() ==> #[trigger] flatten_alerts(alerts@)[i] is Ok,
        enc.encodes(Payload::Array(alerts), out),
    ensures
        out.result is Ok,
        out.records@.len() == flatten_alerts(alerts@).len(),
        forall|i: int|
            0 <= i < out.records@.len() ==> #[trigger] out.records@[i]@ == record_text(
                flatten_alerts(alerts@)[i]->Ok_0@,
            ),
{
    lemma_emit_all_ok(flatten_alerts(alerts@));
    let r = emit(flatten_alerts(alerts@)).0;
    assert forall|i: int| 0 <= i < out.records@.len() implies #[trigger] out.records@[i]@
        == record_text(flatten_alerts(alerts@)[i]->Ok_0@) by {
        assert(texts(out.records@)[i] == r[i]);
    }
}

proof fn lemma_emit_all_ok(values: Seq<Result<String, String>>)
    requires
        forall|i: int| 0 <= i < values.len() ==> #[trigger] values[i] is Ok,
    ensures
        emit(values).1 is None,
        emit(values).0.len() == values.len(),
        forall|i: int|
            0 <= i < values.len() ==> #[trigger] emit(values).0[i] == record_text(values[i]->Ok_0@),
    decreases values.len(),
{
    if values.len() > 0 {
        let rest = values.drop_first();
        assert forall|i: int| 0 <= i < rest.len() implies #[trigger] rest[i] is Ok by {
            assert(rest[i] == values[i + 1]);
        }
        lemma_emit_all_ok(rest);
        assert(values[0] is Ok);
        assert forall|i: int| 0 <= i < values.len() implies #[trigger] emit(values).0[i]
            == record_text(values[i]->Ok_0@) by {
            if i > 0 {
                assert(emit(rest).0[i - 1] == record_text(rest[i - 1]->Ok_0@));
            }
        }
    }
}

/// Encoding a batch made of two batches one after the other gives the records
/// of the first followed by those of the second, when the first went through
/// in full; when it did not, the second adds nothing and the error is the
/// first's.
pub proof fn law_batches_concatenate(
    enc: Log4rsEncoder,
    first: Vec<Alert>,
    second: Vec<Alert>,
    both: Vec<Alert>,
    out1: EncodeOutcome,
    out2: EncodeOutcome,
    out: EncodeOutcome,
)
    requires
        both@ == first@ + second@,
        enc.encodes(Payload::Array(first), out1),
        enc.encodes(Payload::Array(second), out2),
        enc.encodes(Payload::Array(both), out),
    ensures
        out1.result is Ok ==> texts(out.records@) == texts(out1.records@) + texts(out2.records@)
            && (out.result is Ok <==> out2.result is Ok),
        out1.result is Err ==> texts(out.records@) == texts(out1.records@) && out.result is Err
            && out.result->Err_0@ == out1.result->Err_0@,
{
    lemma_flatten_append(first@, second@);
    lemma_emit_append(flatten_alerts(first@), flatten_alerts(second@));
}

} // verus!

verus! {

/// Every record, whatever the JSON text `t` of its value, is the object that
/// holds the value under `auth0alert` and `auth0` under `event`: it starts with
/// `{"auth0alert":`, goes on with `t`, and ends with `,"event":"auth0"}`.
pub proof fn law_record_is_auth0_object(t: Seq<char>)
    ensures
        record_text(t) == "{\"auth0alert\":"@ + t + ",\"event\":\"auth0\"}"@,
        record_text(t).len() == t.len() + 31,
        record_text(t).take(14) == "{\"auth0alert\":"@,
        record_text(t).subrange(14, 14 + t.len() as int) == t,
        record_text(t).skip(14 + t.len() as int) == ",\"event\":\"auth0\"}"@,
{
    reveal_strlit("{\"auth0alert\":");
    reveal_strlit(",\"event\":\"auth0\"}");
    let r = record_text(t);
    assert(r.take(14) =~= "{\"auth0alert\":"@);
    assert(r.subrange(14, 14 + t.len() as int) =~= t);
    assert(r.skip(14 + t.len() as int) =~= ",\"event\":\"auth0\"}"@);
}

/// Every record that the encoder writes for a JSON array is the `auth0`
/// object around the text of the value in the same place of the batch.
pub proof fn law_records_are_auth0_objects(
    enc: Log4rsEncoder,
    data: serde_json::Value,
    out: EncodeOutcome,
)
    requires
        enc.encodes_value(data, out),
        json_array(data) is Some,
    ensures
        out.records@.len() == flat_values(json_array(data)->0).len(),
        forall|i: int|
            0 <= i < out.records@.len() ==> #[trigger] out.records@[i]@ == "{\"auth0alert\":"@
                + json_text(flat_values(json_array(data)->0)[i]) + ",\"event\":\"auth0\"}"@,
{
    let alerts = json_array(data)->0;
    assert(texts(out.records@).len() == out.records@.len());
    assert forall|i: int| 0 <= i < out.records@.len() implies #[trigger] out.records@[i]@
        == "{\"auth0alert\":"@ + json_text(flat_values(alerts)[i]) + ",\"event\":\"auth0\"}"@ by {
        assert(texts(out.records@)[i] == out.records@[i]@);
        assert(value_records(alerts)[i] == record_text(json_text(flat_values(alerts)[i])));
        law_record_is_auth0_object(json_text(flat_values(alerts)[i]));
    }
}

} // verus!

verus! {

proof fn lemma_flat_plain(alerts: Seq<serde_json::Value>)
    requires
        forall|i: int| 0 <= i < alerts.len() ==> json_array(#[trigger] alerts[i]) is None,
    ensures
        flat_values(alerts) == alerts,
    decreases alerts.len(),
{
    if alerts.len() > 0 {
        let a0 = alerts.drop_last();
        assert forall|i: int| 0 <= i < a0.len() implies json_array(#[trigger] a0[i]) is None by {
            assert(a0[i] == alerts[i]);
        }
        lemma_flat_plain(a0);
        assert(json_array(alerts[alerts.len() - 1]) is None);
        assert(flat_values(alerts) =~= alerts);
    }
}

/// A JSON array of alerts none of which is an array gives one record per
/// alert, in order: the `auth0` object around the alert's JSON text.
pub proof fn law_one_record_per_alert(
    enc: Log4rsEncoder,
    data: serde_json::Value,
    alerts: Seq<serde_json::Value>,
    out: EncodeOutcome,
)
    requires
        enc.encodes_value(data, out),
        json_array(data) == Some(alerts),
        forall|i: int| 0 <= i < alerts.len() ==> json_array(#[trigger] alerts[i]) is None,
    ensures
        out.result is Ok,
        out.records@.len() == alerts.len(),
        forall|i: int|
            0 <= i < alerts.len() ==> #[trigger] out.records@[i]@ == "{\"auth0alert\":"@
                + json_text(alerts[i]) + ",\"event\":\"auth0\"}"@,
{
    lemma_flat_plain(alerts);
    law_records_are_auth0_objects(enc, data, out);
}

/// A JSON array whose one alert is itself an array gives one record per
/// element of that alert, in order: the `auth0` object around the element's
/// JSON text.
pub proof fn law_array_alert_gives_its_elements(
    enc: Log4rsEncoder,
    data: serde_json::Value,
    alert: serde_json::Value,
    items: Seq<serde_json::Value>,
    out: EncodeOutcome,
)
    requires
        enc.encodes_value(data, out),
        json_array(data) == Some(seq![alert]),
        json_array(alert) == Some(items),
    ensures
        out.result is Ok,
        out.records@.len() == items.len(),
        forall|i: int|
            0 <= i < items.len() ==> #[trigger] out.records@[i]@ == "{\"auth0alert\":"@
                + json_text(items[i]) + ",\"event\":\"auth0\"}"@,
{
    reveal_with_fuel(flat_values, 2);
    assert(seq![alert].drop_last() =~= Seq::<serde_json::Value>::empty());
    assert(flat_values(seq![alert]) =~= items);
    law_records_are_auth0_objects(enc, data, out);
}

/// A batch of alerts that each hold one written-out value gives one record
/// per value, in order: the `auth0` object around the value's text.
pub proof fn law_written_singles_recorded(
    enc: Log4rsEncoder,
    alerts: Vec<Alert>,
    ts: Seq<String>,
    out: EncodeOutcome,
)
    requires
        alerts@.len() == ts.len(),
        forall|i: int| 0 <= i < ts.len() ==> #[trigger] alerts@[i] == Alert::Single(Ok(ts[i])),
        enc.encodes(Payload::Array(alerts), out),
    ensures
        out.result is Ok,
        out.records@.len() == ts.len(),
        forall|i: int|
            0 <= i < ts.len() ==> #[trigger] out.records@[i]@ == "{\"auth0alert\":"@ + ts[i]@
                + ",\"event\":\"auth0\"}"@,
{
    let ws = ts.map_values(|t: String| Ok::<String, String>(t));
    assert(alerts@ =~= singles(ws));
    lemma_flatten_singles(ws);
    assert forall|i: int| 0 <= i < ws.len() implies #[trigger] ws[i] is Ok by {}
    lemma_emit_all_ok(ws);
    assert forall|i: int| 0 <= i < ts.len() implies #[trigger] out.records@[i]@ == "{\"auth0alert\":"@
        + ts[i]@ + ",\"event\":\"auth0\"}"@ by {
        assert(texts(out.records@)[i] == out.records@[i]@);
        assert(emit(ws).0[i] == record_text(ws[i]->Ok_0@));
        law_record_is_auth0_object(ts[i]@);
    }
}

/// A batch is encoded up to its first value that could not be written out:
/// the values before it give their records, in order, nothing after it is
/// recorded, and its message is the error.
pub proof fn law_stops_at_first_failure(
    enc: Log4rsEncoder,
    alerts: Vec<Alert>,
    ts: Seq<String>,
    m: String,
    post: Seq<Alert>,
    out: EncodeOutcome,
)
    requires
        alerts@ == singles(ts.map_values(|t: String| Ok::<String, String>(t))) + seq![
            Alert::Single(Err(m)),
        ] + post,
        enc.encodes(Payload::Array(alerts), out),
    ensures
        out.result matches Err(e) && e@ == m@,
        out.records@.len() == ts.len(),
        forall|i: int|
            0 <= i < ts.len() ==> #[trigger] out.records@[i]@ == "{\"auth0alert\":"@ + ts[i]@
                + ",\"event\":\"auth0\"}"@,
{
    let ws = ts.map_values(|t: String| Ok::<String, String>(t));
    let bad = seq![Alert::Single(Err::<String, String>(m))];
    lemma_flatten_append(singles(ws) + bad, post);
    lemma_flatten_append(singles(ws), bad);
    lemma_flatten_singles(ws);
    assert(flatten_alerts(bad) =~= seq![Err::<String, String>(m)]) by {
        reveal_with_fuel(flatten_alerts, 2);
        assert(bad.drop_last() =~= Seq::<Alert>::empty());
    }
    let tail = seq![Err::<String, String>(m)] + flatten_alerts(post);
    assert(flatten_alerts(alerts@) =~= ws + tail);
    assert forall|i: int| 0 <= i < ws.len() implies #[trigger] ws[i] is Ok by {}
    lemma_emit_all_ok(ws);
    lemma_emit_append(ws, tail);
    assert(tail[0] == Err::<String, String>(m));
    assert(emit(tail) == (Seq::<Seq<char>>::empty(), Some(m@)));
    assert(emit(ws).0 + emit(tail).0 =~= emit(ws).0);
    assert forall|i: int| 0 <= i < ts.len() implies #[trigger] out.records@[i]@ == "{\"auth0alert\":"@
        + ts[i]@ + ",\"event\":\"auth0\"}"@ by {
        assert(texts(out.records@)[i] == out.records@[i]@);
        assert(emit(ws).0[i] == record_text(ws[i]->Ok_0@));
        law_record_is_auth0_object(ts[i]@);
    }
}

} // verus!
