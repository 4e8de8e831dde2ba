//! The verified proxy's dialect: which answers it can prove, how parameters are written for it, and
//! how its results are turned back into what a JSON-RPC node would have said.
use vstd::prelude::*;
use vstd::string::*;

use crate::json::{Json, JsonView, views};
use crate::text::{
    after_0x, hex_pair, hex_u64, hexadecimal, parse_u64, parsed_u64, push_hex_byte, same_text,
    strip_0x,
};

verus! {

/// What the verified proxy can say of an answer. A light client proves state against a header's
/// state root. It cannot prove a fee oracle's opinion or that a broadcast was accepted: those it
/// forwards, and they come back on trust.
#[derive(Clone, Copy, Debug, PartialEq, Eq, Structural)]
pub enum VerifiedClass {
    Verified,
    Proxied,
}

/// Whether a method reads what a light client proves.
pub open spec fn proof_backed(method: Seq<char>) -> bool {
    ||| method == "eth_getBalance"@
    ||| method == "eth_getTransactionCount"@
    ||| method == "eth_getCode"@
    ||| method == "eth_getStorageAt"@
    ||| method == "eth_call"@
}

/// What the verified proxy can say of an answer to `method`.
pub open spec fn class_of(method: Seq<char>) -> VerifiedClass {
    if proof_backed(method) {
        VerifiedClass::Verified
    } else {
        VerifiedClass::Proxied
    }
}

/// What the verified proxy can say of an answer to `method`.
pub fn verified_class(method: &str) -> (r: VerifiedClass)
    ensures
        r == class_of(method@),
{
    if same_text(method, "eth_getBalance") || same_text(method, "eth_getTransactionCount")
        || same_text(method, "eth_getCode") || same_text(method, "eth_getStorageAt") || same_text(
        method,
        "eth_call",
    ) {
        VerifiedClass::Verified
    } else {
        VerifiedClass::Proxied
    }
}

/// The wire label of how an answer was obtained.
pub open spec fn route_text(class: Option<VerifiedClass>) -> Seq<char> {
    match class {
        Some(VerifiedClass::Verified) => "verified"@,
        Some(VerifiedClass::Proxied) => "proxied"@,
        None => "direct"@,
    }
}

/// The wire label of how an answer was obtained, so that a proven balance can be told from a fee
/// figure that was merely forwarded. `None` never touched the proxy.
pub fn route_label(class: Option<VerifiedClass>) -> (r: &'static str)
    ensures
        r@ == route_text(class),
{
    match class {
        Some(VerifiedClass::Verified) => "verified",
        Some(VerifiedClass::Proxied) => "proxied",
        None => "direct",
    }
}

/// The number that a block count such as `0x4` stands for.
pub open spec fn block_count(p: JsonView) -> Option<u64> {
    match p {
        JsonView::Text(s) => match after_0x(s, false) {
            Some(digits) => parsed_u64(digits, 16),
            None => None,
        },
        _ => None,
    }
}

/// The parameters of a call, filled up to the three that the proxy expects: a block tag, then its
/// own third parameter.
pub open spec fn with_third(p: Seq<JsonView>) -> Seq<JsonView> {
    let latest = JsonView::Text("latest"@);
    if p.len() == 0 {
        seq![latest, latest, JsonView::Bool(false)]
    } else if p.len() == 1 {
        seq![p[0], latest, JsonView::Bool(false)]
    } else if p.len() == 2 {
        p.push(JsonView::Bool(false))
    } else {
        p
    }
}

/// The parameters of `method` as the verified proxy takes them. Parameters that are no array count
/// as none.
pub open spec fn dialect_params(method: Seq<char>, params: JsonView) -> Seq<JsonView> {
    let p = match params.as_array() {
        Some(items) => items,
        None => Seq::empty(),
    };
    if method == "eth_feeHistory"@ {
        if p.len() > 0 && block_count(p[0]) is Some {
            p.update(0, JsonView::Int(block_count(p[0])->0 as int))
        } else {
            p
        }
    } else if method == "eth_getTransactionCount"@ {
        if p.len() >= 2 && p[1] == JsonView::Text("pending"@) {
            p.update(1, JsonView::Text("latest"@))
        } else {
            p
        }
    } else if method == "eth_call"@ || method == "eth_estimateGas"@ || method
        == "eth_createAccessList"@ {
        with_third(p)
    } else {
        p
    }
}

fn read_block_count(p: &Json) -> (r: Option<u64>)
    ensures
        r == block_count(p@),
{
    match p.as_text() {
        Some(s) => match strip_0x(s, false) {
            Some(digits) => parse_u64(digits, 16),
            None => None,
        },
        None => None,
    }
}

fn items_of(params: &Json) -> (r: Vec<Json>)
    ensures
        views(r@) == (match params@.as_array() {
            Some(items) => items,
            None => Seq::empty(),
        }),
{
    match params.as_array() {
        Some(items) => {
            let mut copy: Vec<Json> = Vec::new();
            let mut i: usize = 0;
            while i < items.len()
                invariant
                    i <= items.len(),
                    copy@.len() == i,
                    forall|j: int| 0 <= j < i ==> copy@[j]@ == #[trigger] items@[j]@,
                decreases items.len() - i,
            {
                copy.push(items[i].clone());
                i = i + 1;
            }
            assert(views(copy@) =~= views(items@));
            copy
        },
        None => {
            let none: Vec<Json> = Vec::new();
            assert(views(none@) =~= Seq::empty());
            none
        },
    }
}

/// Rewrites parameters for the verified leg only. What real nodes are sent does not change: a block
/// count is a hexadecimal quantity by the standard, and it is the proxy that wants a number.
///
/// `pending` becomes `latest`, because a light client proves against a header and `pending` has
/// none.
pub fn verified_params(method: &str, params: &Json) -> (r: Json)
    ensures
        r@ == JsonView::Array(dialect_params(method@, params@)),
{
    let mut p = items_of(params);
    let ghost given = views(p@);
    if same_text(method, "eth_feeHistory") {
        if p.len() > 0 {
            if let Some(n) = read_block_count(&p[0]) {
                p.set(0, Json::Unsigned(n));
                assert(views(p@) =~= given.update(0, JsonView::Int(n as int)));
            }
        }
    } else if same_text(method, "eth_getTransactionCount") {
        if p.len() >= 2 {
            let pending = match p[1].as_text() {
                Some(s) => same_text(s, "pending"),
                None => false,
            };
            if pending {
                p.set(1, Json::text("latest"));
                assert(views(p@) =~= given.update(1, JsonView::Text("latest"@)));
            }
        }
    } else if same_text(method, "eth_call") || same_text(method, "eth_estimateGas") || same_text(
        method,
        "eth_createAccessList",
    ) {
        while p.len() < 2
            invariant
                given.len() <= p@.len(),
                p@.len() <= 2 || p@.len() == given.len(),
                forall|i: int| 0 <= i < given.len() ==> p@[i]@ == given[i],
                forall|i: int|
                    given.len() <= i < p@.len() ==> #[trigger] p@[i]@ == JsonView::Text("latest"@),
            decreases 2 - p@.len(),
        {
            p.push(Json::text("latest"));
        }
        if p.len() == 2 {
            p.push(Json::Bool(false));
        }
        assert(views(p@) =~= with_third(given));
    }
    Json::array(p)
}

/// Whether a value is a whole number that fits a byte.
pub open spec fn is_byte(v: JsonView) -> bool {
    match v.as_u64() {
        Some(n) => n <= 255,
        None => false,
    }
}

/// Whether an array is the proxy's way to write bytes.
pub open spec fn are_bytes(items: Seq<JsonView>) -> bool {
    items.len() > 0 && forall|i: int| 0 <= i < items.len() ==> is_byte(#[trigger] items[i])
}

/// The hexadecimal digits of the bytes.
pub open spec fn hex_digits(items: Seq<JsonView>) -> Seq<char>
    decreases items.len(),
{
    if items.len() == 0 {
        Seq::empty()
    } else {
        hex_digits(items.drop_last()) + hex_pair(items.last().as_u64()->0 as nat)
    }
}

/// What a JSON-RPC node would have said in place of `v`.
pub open spec fn wire_form(v: JsonView) -> JsonView {
    match v {
        JsonView::Array(items) => if are_bytes(items) {
            JsonView::Text("0x"@ + hex_digits(items))
        } else {
            v
        },
        JsonView::Int(n) => match v.as_u64() {
            Some(n) => JsonView::Text("0x"@ + hexadecimal(n as nat)),
            None => v,
        },
        _ => v,
    }
}

/// The bytes that an array stands for, where each item is one.
fn bytes_of(items: &Vec<Json>) -> (r: Option<Vec<u8>>)
    ensures
        match r {
            Some(bytes) => are_bytes(views(items@)) && bytes@.len() == items@.len() && forall|i: int|
                0 <= i < bytes@.len() ==> views(items@)[i].as_u64() == Some(#[trigger] bytes@[i] as u64),
            None => !are_bytes(views(items@)),
        },
{
    if items.len() == 0 {
        return None;
    }
    let ghost all = views(items@);
    let mut bytes: Vec<u8> = Vec::new();
    let mut i: usize = 0;
    while i < items.len()
        invariant
            i <= items.len(),
            all == views(items@),
            bytes@.len() == i,
            forall|j: int| 0 <= j < i ==> is_byte(#[trigger] all[j]),
            forall|j: int| 0 <= j < i ==> all[j].as_u64() == Some(#[trigger] bytes@[j] as u64),
        decreases items.len() - i,
    {
        match items[i].as_u64() {
            Some(n) if n <= 255 => {
                bytes.push(n as u8);
            },
            _ => {
                assert(!is_byte(all[i as int]));
                return None;
            },
        }
        i = i + 1;
    }
    Some(bytes)
}

/// Turns a verified-leg result back into what a JSON-RPC node would have returned: a byte array
/// becomes a hexadecimal text and a bare number a hexadecimal quantity. What is already in wire
/// form passes untouched.
pub fn normalize_verified_result(v: Json) -> (r: Json)
    ensures
        r@ == wire_form(v@),
{
    if let Some(items) = v.as_array() {
        let ghost all = views(items@);
        return match bytes_of(items) {
            Some(bytes) => {
                let mut s = String::from_str("0x");
                let mut i: usize = 0;
                assert(all.take(0) =~= Seq::empty());
                assert(s@ =~= "0x"@ + hex_digits(all.take(0)));
                while i < bytes.len()
                    invariant
                        i <= bytes.len(),
                        bytes@.len() == all.len(),
                        forall|j: int|
                            0 <= j < bytes@.len() ==> all[j].as_u64() == Some(
                                #[trigger] bytes@[j] as u64,
                            ),
                        s@ == "0x"@ + hex_digits(all.take(i as int)),
                    decreases bytes.len() - i,
                {
                    push_hex_byte(&mut s, bytes[i]);
                    proof {
                        let next = all.take(i + 1);
                        assert(next.drop_last() =~= all.take(i as int));
                        assert(next.last().as_u64() == Some(bytes@[i as int] as u64));
                        assert(s@ =~= "0x"@ + hex_digits(next));
                    }
                    i = i + 1;
                }
                assert(all.take(i as int) =~= all);
                Json::Text(s)
            },
            None => v,
        };
    }
    match v.as_u64() {
        Some(n) => Json::Text(String::from_str("0x").concat(hex_u64(n).as_str())),
        None => v,
    }
}

} // verus!
