use vstd::prelude::*;
use crate::text::{dec_text, decimal, owned};

verus! {

/// A form-encoded request body: field names and values, in order.
pub type Form = Vec<(String, String)>;

/// What a form holds, as pairs of character sequences.
pub open spec fn form_view(f: Seq<(String, String)>) -> Seq<(Seq<char>, Seq<char>)> {
    f.map_values(|p: (String, String)| (p.0@, p.1@))
}

/// The fields of one draw call of `lottery_num` items.
pub open spec fn draw_form_spec(
    act_id: int,
    lottery_id: int,
    csrf: Seq<char>,
    lottery_num: int,
) -> Seq<(Seq<char>, Seq<char>)> {
    seq![
        ("act_id"@, dec_text(act_id)),
        ("csrf"@, csrf),
        ("lottery_id"@, dec_text(lottery_id)),
        ("lottery_num"@, dec_text(lottery_num)),
    ]
}

fn push_field(form: &mut Form, key: &str, value: String)
    ensures
        form_view(final(form)@) == form_view(old(form)@).push((key@, value@)),
{
    let ghost before = form@;
    form.push((owned(key), value));
    assert(form_view(form@) =~= form_view(before).push((key@, value@)));
}

/// The form of a draw call that asks for `lottery_num` items at once.
pub fn draw_item_form(act_id: i64, lottery_id: i64, bili_jct: &str, lottery_num: i32) -> (r: Form)
    ensures
        form_view(r@) == draw_form_spec(act_id as int, lottery_id as int, bili_jct@, lottery_num as int),
{
    let mut form: Form = Vec::new();
    push_field(&mut form, "act_id", decimal(act_id));
    push_field(&mut form, "csrf", owned(bili_jct));
    push_field(&mut form, "lottery_id", decimal(lottery_id));
    push_field(&mut form, "lottery_num", decimal(lottery_num as i64));
    assert(form_view(form@) =~= draw_form_spec(act_id as int, lottery_id as int, bili_jct@, lottery_num as int));
    form
}

} // verus!

verus! {

/// The amount charged for one draw credit.
pub const PRICE_PER_DRAW: i64 = 9900;

/// The compact JSON object `{"activity_id":A,"lottery_id":L}` that names the
/// activity a purchase is made for.
pub open spec fn biz_extra_spec(act_id: int, lottery_id: int) -> Seq<char> {
    "{\"activity_id\":"@ + dec_text(act_id) + ",\"lottery_id\":"@ + dec_text(lottery_id) + "}"@
}

/// Writes the activity object of a purchase form.
pub fn biz_extra(act_id: i64, lottery_id: i64) -> (r: String)
    ensures
        r@ == biz_extra_spec(act_id as int, lottery_id as int),
{
    let a = decimal(act_id);
    let l = decimal(lottery_id);
    let s = owned("{\"activity_id\":");
    let s = s.concat(a.as_str());
    let s = s.concat(",\"lottery_id\":");
    let s = s.concat(l.as_str());
    s.concat("}")
}

/// The fields of a purchase of `goods_num` draw credits.
pub open spec fn order_form_spec(
    act_id: int,
    lottery_id: int,
    csrf: Seq<char>,
    goods_id: int,
    goods_num: int,
) -> Seq<(Seq<char>, Seq<char>)> {
    seq![
        ("area_id"@, ""@),
        ("biz_extra"@, biz_extra_spec(act_id, lottery_id)),
        ("biz_source"@, "1"@),
        ("build"@, "0"@),
        ("common_bp"@, "0"@),
        ("context_id"@, "0"@),
        ("context_type"@, "103"@),
        ("csrf"@, csrf),
        ("goods_id"@, dec_text(goods_id)),
        ("goods_num"@, dec_text(goods_num)),
        ("ios_bp"@, "0"@),
        ("pay_bp"@, dec_text(goods_num * PRICE_PER_DRAW)),
        ("platform"@, "pc"@),
    ]
}

/// The form that buys `goods_num` draw credits of the product `goods_id`,
/// paid at the fixed price per credit.
pub fn create_order_form(
    act_id: i64,
    lottery_id: i64,
    bili_jct: &str,
    goods_id: i64,
    goods_num: i32,
) -> (r: Form)
    ensures
        form_view(r@) == order_form_spec(
            act_id as int,
            lottery_id as int,
            bili_jct@,
            goods_id as int,
            goods_num as int,
        ),
{
    let mut form: Form = Vec::new();
    push_field(&mut form, "area_id", owned(""));
    push_field(&mut form, "biz_extra", biz_extra(act_id, lottery_id));
    push_field(&mut form, "biz_source", owned("1"));
    push_field(&mut form, "build", owned("0"));
    push_field(&mut form, "common_bp", owned("0"));
    push_field(&mut form, "context_id", owned("0"));
    push_field(&mut form, "context_type", owned("103"));
    push_field(&mut form, "csrf", owned(bili_jct));
    push_field(&mut form, "goods_id", decimal(goods_id));
    push_field(&mut form, "goods_num", decimal(goods_num as i64));
    let pay: i64 = goods_num as i64 * PRICE_PER_DRAW;
    push_field(&mut form, "ios_bp", owned("0"));
    push_field(&mut form, "pay_bp", decimal(pay));
    push_field(&mut form, "platform", owned("pc"));
    assert(form_view(form@) =~= order_form_spec(
        act_id as int,
        lottery_id as int,
        bili_jct@,
        goods_id as int,
        goods_num as int,
    ));
    form
}

} // verus!
