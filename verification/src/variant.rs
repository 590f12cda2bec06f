//! Product editions ("variants") of an account and what each one offers.

use vstd::prelude::*;
use crate::json::{as_text, field, opt_text, Json, JsonV};
use crate::text::text_eq;

verus! {

/// Path prefix of the billing/check-in endpoints.
pub const CHECKIN_API_PREFIX: &'static str = "/v2/billing/meter";

/// The edition an account belongs to: the domestic edition (`cn`), which
/// has check-in and the growth center, or the international one (`ai`).
#[derive(Clone, Copy, Debug, PartialEq, Eq, Structural)]
pub enum WbVariant {
    Cn,
    Ai,
}

/// `WbVariant::parse`: `"ai"` names the international edition; anything else,
/// and nothing, names the domestic one.
pub open spec fn parse_variant(raw: Option<Seq<char>>) -> WbVariant {
    match raw {
        Some(s) => if s == "ai"@ {
            WbVariant::Ai
        } else {
            WbVariant::Cn
        },
        None => WbVariant::Cn,
    }
}

/// The edition of an account record, read from its `variant` field.
pub open spec fn account_variant(account: JsonV) -> WbVariant {
    parse_variant(as_text(field(account, "variant"@)))
}

/// The stored name of an edition.
pub open spec fn variant_name(v: WbVariant) -> Seq<char> {
    match v {
        WbVariant::Cn => "cn"@,
        WbVariant::Ai => "ai"@,
    }
}

/// Only the domestic edition has a check-in service.
pub open spec fn variant_supports_checkin(v: WbVariant) -> bool {
    v == WbVariant::Cn
}

/// `path` starts with `/v2/`.
pub open spec fn has_v2_prefix(path: Seq<char>) -> bool {
    &&& path.len() >= 4
    &&& path[0] == '/'
    &&& path[1] == 'v'
    &&& path[2] == '2'
    &&& path[3] == '/'
}

/// Candidate paths for a billing endpoint, tried in order: the international
/// edition first tries the path without its `/v2` prefix, then the path itself.
pub open spec fn billing_path_candidates(v: WbVariant, path: Seq<char>) -> Seq<Seq<char>> {
    if v == WbVariant::Ai && has_v2_prefix(path) {
        seq![path.skip(3), path]
    } else {
        seq![path]
    }
}

impl WbVariant {
    /// Reads an edition name.
    pub fn parse(raw: Option<&str>) -> (res: WbVariant)
        ensures
            res == parse_variant(opt_text(raw)),
    {
        match raw {
            Some(s) => if text_eq(s, "ai") {
                WbVariant::Ai
            } else {
                WbVariant::Cn
            },
            None => WbVariant::Cn,
        }
    }

    /// The stored name of the edition.
    pub fn as_str(&self) -> (res: &'static str)
        ensures
            res@ == variant_name(*self),
    {
        match self {
            WbVariant::Cn => "cn",
            WbVariant::Ai => "ai",
        }
    }

    /// The edition has a check-in service.
    pub fn supports_checkin(&self) -> (res: bool)
        ensures
            res == variant_supports_checkin(*self),
    {
        match self {
            WbVariant::Cn => true,
            WbVariant::Ai => false,
        }
    }

    /// Candidate paths for a billing endpoint, in the order they are tried.
    pub fn billing_paths(&self, path: &str) -> (res: Vec<String>)
        ensures
            res@.len() == billing_path_candidates(*self, path@).len(),
            forall|i: int|
                0 <= i < res@.len() ==> (#[trigger] res@[i])@ == billing_path_candidates(
                    *self,
                    path@,
                )[i],
    {
        let n = path.unicode_len();
        let prefixed = n >= 4 && path.get_char(0) == '/' && path.get_char(1) == 'v'
            && path.get_char(2) == '2' && path.get_char(3) == '/';
        let mut out: Vec<String> = Vec::new();
        if *self == WbVariant::Ai && prefixed {
            out.push(path.substring_char(3, n).to_owned());
        }
        out.push(path.to_owned());
        out
    }
}

/// The edition of an account record (`variant_of`).
pub fn variant_of(account: &Json) -> (res: WbVariant)
    ensures
        res == account_variant(account@),
{
    match account.get("variant") {
        Some(v) => WbVariant::parse(v.as_str()),
        None => WbVariant::parse(None),
    }
}

} // verus!
