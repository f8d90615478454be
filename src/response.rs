use vstd::prelude::*;
use serde_json::Value;

verus! {

#[verifier::external_type_specification]
#[verifier::external_body]
pub struct ExValue(serde_json::Value);

/// The member of a JSON object under a key, as `Value::get` finds it.
pub uninterp spec fn json_member(v: Value, key: Seq<char>) -> Option<Value>;

/// A JSON value as an integer, as `Value::as_i64` reads it.
pub uninterp spec fn json_int(v: Value) -> Option<i64>;

/// The entries of a JSON array, as `Value::as_array` gives them.
pub uninterp spec fn json_array(v: Value) -> Option<Seq<Value>>;

/// The contents of a JSON string, as `Value::as_str` gives them.
pub uninterp spec fn json_str(v: Value) -> Option<Seq<char>>;

/// Relies on `serde_json::Value::get` with a string key: the member of an
/// object under that key, `None` for a missing key or a non-object. The
/// result depends on the value and the key alone.
#[verifier::external_body]
fn member<'a>(v: &'a Value, key: &str) -> (r: Option<&'a Value>)
    ensures
        r is Some <==> json_member(*v, key@) is Some,
        r is Some ==> json_member(*v, key@) == Some(*r->0),
{
    v.get(key)
}

/// Relies on `serde_json::Value::as_i64`: the value as an integer, where it is
/// one that fits. The result depends on the value alone.
#[verifier::external_body]
fn as_integer(v: &Value) -> (r: Option<i64>)
    ensures
        r == json_int(*v),
{
    v.as_i64()
}

/// Relies on `serde_json::Value::as_array`: the entries of an array, `None`
/// for any other value.
#[verifier::external_body]
fn as_list(v: &Value) -> (r: Option<&Vec<Value>>)
    ensures
        r is Some <==> json_array(*v) is Some,
        r is Some ==> json_array(*v) == Some(r->0@),
{
    v.as_array()
}

/// Relies on `serde_json::Value::as_str`: the contents of a string value,
/// `None` for any other value.
#[verifier::external_body]
fn as_text(v: &Value) -> (r: Option<String>)
    ensures
        r is Some <==> json_str(*v) is Some,
        r is Some ==> json_str(*v) == Some(r->0@),
{
    v.as_str().map(|s| s.to_owned())
}

/// The integer member `key` of `v`.
pub open spec fn int_member(v: Value, key: Seq<char>) -> Option<i64> {
    match json_member(v, key) {
        Some(m) => json_int(m),
        None => None,
    }
}

/// The top-level status of a response: its integer member `code`.
pub open spec fn status_spec(body: Value) -> Option<i64> {
    int_member(body, "code"@)
}

/// The nested status of a response: the integer `data.err_code`.
pub open spec fn err_code_spec(body: Value) -> Option<i64> {
    match json_member(body, "data"@) {
        Some(d) => int_member(d, "err_code"@),
        None => None,
    }
}

/// The entries of `data.item_list` when it is an array; none otherwise.
pub open spec fn item_list_spec(body: Value) -> Seq<Value> {
    match json_member(body, "data"@) {
        Some(d) => match json_member(d, "item_list"@) {
            Some(l) => match json_array(l) {
                Some(entries) => entries,
                None => Seq::empty(),
            },
            None => Seq::empty(),
        },
        None => Seq::empty(),
    }
}

/// The string under `card_item.card_type_info.<key>` of a granted item.
pub open spec fn card_field_spec(item: Value, key: Seq<char>) -> Option<Seq<char>> {
    match json_member(item, "card_item"@) {
        Some(card) => match json_member(card, "card_type_info"@) {
            Some(info) => match json_member(info, key) {
                Some(f) => json_str(f),
                None => None,
            },
            None => None,
        },
        None => None,
    }
}

/// The text of an optional string.
pub open spec fn opt_text(s: Option<String>) -> Option<Seq<char>> {
    match s {
        Some(t) => Some(t@),
        None => None,
    }
}

/// A prize record holds the name and chance written in an item entry.
pub open spec fn prize_read_from(p: PrizeRecord, item: Value) -> bool {
    &&& opt_text(p.name) == card_field_spec(item, "name"@)
    &&& opt_text(p.chance) == card_field_spec(item, "chance"@)
}

/// `items` holds one record per entry of `entries`, in order.
pub open spec fn prizes_read_from(items: Seq<PrizeRecord>, entries: Seq<Value>) -> bool {
    &&& items.len() == entries.len()
    &&& forall|i: int| 0 <= i < items.len() ==> prize_read_from(#[trigger] items[i], entries[i])
}

/// `reply` is what a draw response reads as: its top-level status, and only
/// when that is 0 its nested status and items.
pub open spec fn reply_read_from(reply: DrawReply, body: Value) -> bool {
    &&& reply.code == status_spec(body)
    &&& if reply.code == Some(0i64) {
        &&& reply.err_code == err_code_spec(body)
        &&& prizes_read_from(reply.items@, item_list_spec(body))
    } else {
        &&& reply.err_code is None
        &&& reply.items@.len() == 0
    }
}

/// The credits a draw response grants: as many as it lists items, when both
/// its statuses are 0; none otherwise.
pub open spec fn granted_by_body(body: Value) -> nat {
    if status_spec(body) == Some(0i64) && err_code_spec(body) == Some(0i64) {
        item_list_spec(body).len()
    } else {
        0
    }
}

/// One item won by a draw, kept for reporting.
#[derive(Debug, Clone)]
pub struct PrizeRecord {
    pub name: Option<String>,
    pub chance: Option<String>,
}

/// What the interpreter reads of a draw response: the top-level status, the
/// nested status under `data`, and the items won.
#[derive(Debug, Clone)]
pub struct DrawReply {
    pub code: Option<i64>,
    pub err_code: Option<i64>,
    pub items: Vec<PrizeRecord>,
}

/// The classification of one draw response.
#[derive(Debug, Clone)]
pub enum DrawOutcome {
    /// The envelope was missing or malformed.
    TransportFailure,
    /// The service refused the request with this code.
    ApplicationFailure(i64),
    /// The draw went through and granted these items.
    Success(Vec<PrizeRecord>),
}

/// The classification of one purchase response.
#[derive(Debug, Clone, Copy, PartialEq, Eq)]
pub enum PurchaseOutcome {
    Success,
    /// The purchase was refused; the status read, if any.
    Failure(Option<i64>),
}

/// The three-tier check of a draw response: envelope, request, domain.
pub open spec fn draw_outcome_of(reply: DrawReply) -> DrawOutcome {
    match reply.code {
        None => DrawOutcome::TransportFailure,
        Some(code) => if code != 0 {
            DrawOutcome::ApplicationFailure(code)
        } else {
            match reply.err_code {
                None => DrawOutcome::TransportFailure,
                Some(err) => if err != 0 {
                    DrawOutcome::ApplicationFailure(err)
                } else {
                    DrawOutcome::Success(reply.items)
                },
            }
        },
    }
}

/// How many draw credits an outcome consumed: the number of items granted.
pub open spec fn granted_of(outcome: DrawOutcome) -> nat {
    match outcome {
        DrawOutcome::Success(items) => items@.len(),
        _ => 0,
    }
}

/// The outcome of a purchase whose response carried the status `code`.
pub open spec fn purchase_outcome_of(code: Option<i64>) -> PurchaseOutcome {
    if code == Some(0i64) {
        PurchaseOutcome::Success
    } else {
        PurchaseOutcome::Failure(code)
    }
}

impl DrawOutcome {
    /// The number of items granted: the length of the returned item list on
    /// success, zero on any failure.
    pub fn granted(&self) -> (r: u64)
        ensures
            r == granted_of(*self),
    {
        match self {
            DrawOutcome::Success(items) => items.len() as u64,
            _ => 0,
        }
    }

    pub fn is_success(&self) -> (r: bool)
        ensures
            r == (*self is Success),
    {
        match self {
            DrawOutcome::Success(_) => true,
            _ => false,
        }
    }
}

/// Classifies what was read of a draw response.
pub fn interpret_draw(reply: DrawReply) -> (r: DrawOutcome)
    ensures
        r == draw_outcome_of(reply),
{
    match reply.code {
        None => DrawOutcome::TransportFailure,
        Some(code) => if code != 0 {
            DrawOutcome::ApplicationFailure(code)
        } else {
            match reply.err_code {
                None => DrawOutcome::TransportFailure,
                Some(err) => if err != 0 {
                    DrawOutcome::ApplicationFailure(err)
                } else {
                    DrawOutcome::Success(reply.items)
                },
            }
        },
    }
}

/// Classifies the status of a purchase response: success exactly on status 0.
pub fn interpret_purchase(code: Option<i64>) -> (r: PurchaseOutcome)
    ensures
        r == purchase_outcome_of(code),
{
    match code {
        Some(c) => if c == 0 {
            PurchaseOutcome::Success
        } else {
            PurchaseOutcome::Failure(code)
        },
        None => PurchaseOutcome::Failure(None),
    }
}

/// Reads the top-level status of a response.
pub fn read_status(body: &Value) -> (r: Option<i64>)
    ensures
        r == status_spec(*body),
{
    match member(body, "code") {
        Some(c) => as_integer(c),
        None => None,
    }
}

fn card_field(item: &Value, key: &str) -> (r: Option<String>)
    ensures
        opt_text(r) == card_field_spec(*item, key@),
{
    let card = match member(item, "card_item") {
        Some(c) => c,
        None => return None,
    };
    let info = match member(card, "card_type_info") {
        Some(i) => i,
        None => return None,
    };
    match member(info, key) {
        Some(v) => as_text(v),
        None => None,
    }
}

/// Reads a draw response. Nested fields are only probed once the top-level
/// status is present and 0; an absent item list reads as no items.
pub fn read_draw_reply(body: &Value) -> (r: DrawReply)
    ensures
        reply_read_from(r, *body),
{
    let code = read_status(body);
    let mut items: Vec<PrizeRecord> = Vec::new();
    if code != Some(0i64) {
        return DrawReply { code, err_code: None, items };
    }
    let data = match member(body, "data") {
        Some(d) => d,
        None => {
            assert(prizes_read_from(items@, item_list_spec(*body)));
            return DrawReply { code, err_code: None, items };
        },
    };
    let err_code = match member(data, "err_code") {
        Some(e) => as_integer(e),
        None => None,
    };
    if let Some(list_value) = member(data, "item_list") {
        if let Some(list) = as_list(list_value) {
            let n = list.len();
            let mut i: usize = 0;
            while i < n
                invariant
                    n == list@.len(),
                    i <= n,
                    items@.len() == i,
                    forall|j: int| 0 <= j < i ==> prize_read_from(#[trigger] items@[j], list@[j]),
                decreases n - i,
            {
                let item = &list[i];
                let record = PrizeRecord { name: card_field(item, "name"), chance: card_field(item, "chance") };
                items.push(record);
                i = i + 1;
            }
        }
    }
    DrawReply { code, err_code, items }
}

/// Reads and classifies a draw response: the outcome of exactly what the
/// response reads as, granting what its item list holds on success.
pub fn interpret_draw_response(body: &Value) -> (r: DrawOutcome)
    ensures
        exists|reply: DrawReply| reply_read_from(reply, *body) && r == draw_outcome_of(reply),
        granted_of(r) == granted_by_body(*body),
        status_spec(*body) is None ==> r is TransportFailure,
        status_spec(*body) is Some && status_spec(*body)->0 != 0
            ==> r == DrawOutcome::ApplicationFailure(status_spec(*body)->0),
        status_spec(*body) == Some(0i64) && err_code_spec(*body) == Some(0i64) ==> r is Success,
{
    let reply = read_draw_reply(body);
    let ghost read = reply;
    let r = interpret_draw(reply);
    assert(reply_read_from(read, *body) && r == draw_outcome_of(read));
    r
}

/// Reads and classifies a purchase response: success exactly when its
/// top-level status is 0.
pub fn interpret_purchase_response(body: &Value) -> (r: PurchaseOutcome)
    ensures
        r == purchase_outcome_of(status_spec(*body)),
{
    interpret_purchase(read_status(body))
}

/// A response whose top-level and nested statuses are both 0 is a success
/// that grants exactly as many credits as it lists items.
pub proof fn lemma_success_grants_listed_items(reply: DrawReply)
    requires
        reply.code == Some(0i64),
        reply.err_code == Some(0i64),
    ensures
        draw_outcome_of(reply) is Success,
        granted_of(draw_outcome_of(reply)) == reply.items@.len(),
{
}

/// A response with a non-zero top-level status is an application failure
/// carrying that status and granting nothing, whatever it holds beneath.
pub proof fn lemma_refused_grants_nothing(reply: DrawReply)
    requires
        reply.code is Some,
        reply.code->0 != 0,
    ensures
        draw_outcome_of(reply) == DrawOutcome::ApplicationFailure(reply.code->0),
        granted_of(draw_outcome_of(reply)) == 0,
        forall|other: DrawReply| other.code == reply.code
            ==> draw_outcome_of(other) == draw_outcome_of(reply),
{
}

/// A response without a top-level status is a transport failure granting
/// nothing.
pub proof fn lemma_missing_status_grants_nothing(reply: DrawReply)
    requires
        reply.code is None,
    ensures
        draw_outcome_of(reply) is TransportFailure,
        granted_of(draw_outcome_of(reply)) == 0,
{
}

} // verus!
