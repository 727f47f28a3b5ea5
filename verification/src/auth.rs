//! Authorization guard: an exact-match test of the caller's identity against
//! the fixed allow-list of principals known at build time.
use vstd::prelude::*;
use vstd::string::StringExecFns;

verus! {

/// Compares two string slices.
///
/// Relies on str's `PartialEq`: two slices are equal exactly when their
/// character sequences are equal.
#[verifier::external_body]
pub(crate) fn str_eq(a: &str, b: &str) -> (r: bool)
    ensures
        r == (a@ == b@),
{
    a == b
}

/// The fixed allow-list: a caller identity is authorized exactly when its
/// textual form is one of these principals.
pub open spec fn is_authorized(caller: Seq<char>) -> bool {
    ||| caller == "62ick-jmsqq-h6wq5-emdfw-qblno-qphae-hs7y3-dxoyp-xiccq-bw4q3-aae"@
    ||| caller == "xktoe-jjqeb-tzsr3-hxjir-en65h-6agv7-bbq2g-dyoch-276wj-waea7-rqe"@
    ||| caller == "roqha-4aaaa-aaaap-qplnq-cai"@
    ||| caller == "e453p-eqaaa-aaaar-qanya-cai"@
    ||| caller == "vr4ua-siaaa-aaaar-qaosq-cai"@
    ||| caller == "pimqm-2dtug-w3ejt-krqai-jlp3u-uux2y-erjcw-wbvhu-pmvhu-hunju-wqe"@
    ||| caller == "daoh3-exchb-6dvbd-fyxld-7kxjo-fdddf-4vhqp-mcoo2-s7gqh-qwpfd-pae"@
}

/// Membership test against the allow-list.
pub fn is_authorized_caller(caller: &str) -> (r: bool)
    ensures
        r == is_authorized(caller@),
{
    if str_eq(caller, "62ick-jmsqq-h6wq5-emdfw-qblno-qphae-hs7y3-dxoyp-xiccq-bw4q3-aae") {
        return true;
    }
    if str_eq(caller, "xktoe-jjqeb-tzsr3-hxjir-en65h-6agv7-bbq2g-dyoch-276wj-waea7-rqe") {
        return true;
    }
    if str_eq(caller, "roqha-4aaaa-aaaap-qplnq-cai") {
        return true;
    }
    if str_eq(caller, "e453p-eqaaa-aaaar-qanya-cai") {
        return true;
    }
    if str_eq(caller, "vr4ua-siaaa-aaaar-qaosq-cai") {
        return true;
    }
    if str_eq(caller, "pimqm-2dtug-w3ejt-krqai-jlp3u-uux2y-erjcw-wbvhu-pmvhu-hunju-wqe") {
        return true;
    }
    if str_eq(caller, "daoh3-exchb-6dvbd-fyxld-7kxjo-fdddf-4vhqp-mcoo2-s7gqh-qwpfd-pae") {
        return true;
    }
    false
}

/// Rejects a caller that is not on the allow-list. Performs no other work, so
/// an unauthorized caller observes no state change from any entry point that
/// consults this first.
pub fn check_authorization(caller: &str) -> (r: Result<(), String>)
    ensures
        r is Ok <==> is_authorized(caller@),
        !is_authorized(caller@) ==> (r matches Err(m) && m@ == "Unauthorized"@),
{
    if is_authorized_caller(caller) {
        Ok(())
    } else {
        Err(String::from_str("Unauthorized"))
    }
}

/// The guard wired at the entry-point level for the credential operations;
/// accepts exactly the allow-listed callers, as `check_authorization` does,
/// and differs only in the diagnostic it reports.
pub fn authorized_guard(caller: &str) -> (r: Result<(), String>)
    ensures
        r is Ok <==> is_authorized(caller@),
        !is_authorized(caller@) ==> (r matches Err(m) && m@
            == "Unauthorized: Caller not in authorized list"@),
{
    if is_authorized_caller(caller) {
        Ok(())
    } else {
        Err(String::from_str("Unauthorized: Caller not in authorized list"))
    }
}

} // verus!
