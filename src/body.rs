use vstd::prelude::*;

use crate::device::Startup;
use crate::mutation::Change;
use crate::url::decimal;

verus! {

/// The JSON string literal (quoted and escaped) that serde_json writes for `s`.
pub uninterp spec fn json_string_literal(s: Seq<char>) -> Seq<char>;

/// Relies on serde_json::to_string for `u64`: the decimal digits of `n`. Writing into
/// an in-memory buffer does not fail.
#[verifier::external_body]
fn number_text(n: u64) -> (r: String)
    ensures
        r@ == decimal(n as nat),
{
    match serde_json::to_string(&n) {
        Ok(t) => t,
        Err(_) => String::new(),
    }
}

/// Relies on serde_json::to_string for `str`: the quoted, escaped JSON literal of `s`.
/// Writing into an in-memory buffer does not fail.
#[verifier::external_body]
fn string_literal(s: &str) -> (r: String)
    ensures
        r@ == json_string_literal(s@),
{
    match serde_json::to_string(s) {
        Ok(t) => t,
        Err(_) => String::new(),
    }
}

/// The three-digit, zero-padded text of `f`, which is below one thousand.
pub open spec fn three_digits(f: nat) -> Seq<char> {
    if f < 10 {
        "00"@ + decimal(f)
    } else if f < 100 {
        "0"@ + decimal(f)
    } else {
        decimal(f)
    }
}

/// The JSON number for `m` thousandths, with three decimals.
pub open spec fn milli_text(m: nat) -> Seq<char> {
    decimal(m / 1000) + "."@ + three_digits(m % 1000)
}

/// The JSON string that the hub uses for a startup behaviour.
pub open spec fn startup_name(b: Startup) -> Seq<char> {
    match b {
        Startup::StartOn => "\"startOn\""@,
        Startup::StartOff => "\"startOff\""@,
        Startup::StartPrevious => "\"startPrevious\""@,
        Startup::StartToggle => "\"startToggle\""@,
    }
}

/// The members of the `attributes` object that carry `c`.
pub open spec fn members(c: Change) -> Seq<char> {
    match c {
        Change::CustomName(n) => "\"customName\":"@ + json_string_literal(n@),
        Change::IsOn(Some(b)) => "\"isOn\":"@ + (if b {
            "true"@
        } else {
            "false"@
        }),
        Change::IsOn(None) => Seq::empty(),
        Change::LightLevel(l) => "\"lightLevel\":"@ + decimal(l as nat),
        Change::ColorTemperature(t) => "\"colorTemperature\":"@ + decimal(t as nat),
        Change::HueSaturation(h, s) => "\"colorHue\":"@ + milli_text(h as nat)
            + ",\"colorSaturation\":"@ + milli_text(s as nat),
        Change::StartupOnOff(b) => "\"startupOnOff\":"@ + startup_name(b),
        Change::BlindsTargetLevel(l) => "\"blindsTargetLevel\":"@ + decimal(l as nat),
    }
}

/// The PATCH body for `c`: a one-element array holding `{"attributes": {...}}`.
pub open spec fn patch_text(c: Change) -> Seq<char> {
    "[{\"attributes\":{"@ + members(c) + "}}]"@
}

/// `prefix` followed by `rest`.
fn joined(prefix: &str, rest: &str) -> (r: String)
    ensures
        r@ == prefix@ + rest@,
{
    let mut r = prefix.to_string();
    r.append(rest);
    r
}

fn milli_number(m: u32) -> (r: String)
    ensures
        r@ == milli_text(m as nat),
{
    let whole = number_text((m / 1000) as u64);
    let f = m % 1000;
    let frac = number_text(f as u64);
    let padded = if f < 10 {
        joined("00", frac.as_str())
    } else if f < 100 {
        joined("0", frac.as_str())
    } else {
        frac
    };
    let r = joined(whole.as_str(), ".");
    joined(r.as_str(), padded.as_str())
}

fn startup_text(b: Startup) -> (r: String)
    ensures
        r@ == startup_name(b),
{
    match b {
        Startup::StartOn => "\"startOn\"".to_string(),
        Startup::StartOff => "\"startOff\"".to_string(),
        Startup::StartPrevious => "\"startPrevious\"".to_string(),
        Startup::StartToggle => "\"startToggle\"".to_string(),
    }
}

fn member_text(c: &Change) -> (r: String)
    ensures
        r@ == members(*c),
{
    match c {
        Change::CustomName(n) => joined("\"customName\":", string_literal(n.as_str()).as_str()),
        Change::IsOn(Some(b)) => joined("\"isOn\":", if *b {
            "true"
        } else {
            "false"
        }),
        Change::IsOn(None) => String::new(),
        Change::LightLevel(l) => joined("\"lightLevel\":", number_text(*l as u64).as_str()),
        Change::ColorTemperature(t) => joined(
            "\"colorTemperature\":",
            number_text(*t as u64).as_str(),
        ),
        Change::HueSaturation(h, s) => {
            let hue = joined("\"colorHue\":", milli_number(*h).as_str());
            let with_sep = joined(hue.as_str(), ",\"colorSaturation\":");
            joined(with_sep.as_str(), milli_number(*s).as_str())
        },
        Change::StartupOnOff(b) => joined("\"startupOnOff\":", startup_text(*b).as_str()),
        Change::BlindsTargetLevel(l) => joined(
            "\"blindsTargetLevel\":",
            number_text(*l as u64).as_str(),
        ),
    }
}

/// The JSON body that the hub expects in the PATCH request for `change`.
pub fn patch_body(change: &Change) -> (r: String)
    ensures
        r@ == patch_text(*change),
{
    let head = joined("[{\"attributes\":{", member_text(change).as_str());
    joined(head.as_str(), "}}]")
}

} // verus!
