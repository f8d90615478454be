use vstd::prelude::*;
use crate::text::{dec_text, decimal, owned};

verus! {

/// The activity whose credits are bought and drawn, and how many.
#[derive(Debug, Clone)]
pub struct Lottery {
    pub act_id: i64,
    pub lottery_id: i64,
    pub num_draw: i32,
}

/// The account's credentials.
#[derive(Debug, Clone)]
pub struct Cookie {
    pub dede_userid_ckmd5: String,
    pub dede_userid: String,
    pub sess_data: String,
    pub bili_jct: String,
    pub expires: i64,
}

#[derive(Debug, Clone)]
pub struct Config {
    pub lottery: Lottery,
    pub cookie: Cookie,
}

impl Lottery {
    /// The number of credits to buy and draw; `None` for a negative count.
    pub fn draw_quota(&self) -> (r: Option<u64>)
        ensures
            r == (if self.num_draw >= 0 { Some(self.num_draw as u64) } else { None::<u64> }),
    {
        if self.num_draw >= 0 {
            Some(self.num_draw as u64)
        } else {
            None
        }
    }
}

/// The cookie header of a draw call: the device identifier and the five
/// credential fields.
pub open spec fn draw_cookie_spec(buvid3: Seq<char>, c: Cookie) -> Seq<char> {
    "buvid3="@ + buvid3
        + "; DedeUserID="@ + c.dede_userid@
        + "; DedeUserID__ckMd5="@ + c.dede_userid_ckmd5@
        + "; bili_ticket_expires="@ + dec_text(c.expires as int)
        + "; SESSDATA="@ + c.sess_data@
        + "; bili_jct="@ + c.bili_jct@
        + ";"@
}

/// The cookie header of a purchase call: the session token alone.
pub open spec fn purchase_cookie_spec(c: Cookie) -> Seq<char> {
    "SESSDATA="@ + c.sess_data@
}

impl Cookie {
    pub fn draw_cookie_header(&self, buvid3: &str) -> (r: String)
        ensures
            r@ == draw_cookie_spec(buvid3@, *self),
    {
        let expires = decimal(self.expires);
        let s = owned("buvid3=");
        let s = s.concat(buvid3);
        let s = s.concat("; DedeUserID=");
        let s = s.concat(self.dede_userid.as_str());
        let s = s.concat("; DedeUserID__ckMd5=");
        let s = s.concat(self.dede_userid_ckmd5.as_str());
        let s = s.concat("; bili_ticket_expires=");
        let s = s.concat(expires.as_str());
        let s = s.concat("; SESSDATA=");
        let s = s.concat(self.sess_data.as_str());
        let s = s.concat("; bili_jct=");
        let s = s.concat(self.bili_jct.as_str());
        s.concat(";")
    }

    pub fn purchase_cookie_header(&self) -> (r: String)
        ensures
            r@ == purchase_cookie_spec(*self),
    {
        owned("SESSDATA=").concat(self.sess_data.as_str())
    }
}

} // verus!
