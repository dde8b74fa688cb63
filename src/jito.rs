//! The block engine's list of tip accounts.
use crate::codec::string_of;
use vstd::prelude::*;

verus! {

#[verifier::external_type_specification]
#[verifier::external_body]
pub struct ExValue(serde_json::Value);

/// Tip accounts as the block engine lists them.
#[derive(Debug, PartialEq, Eq)]
pub struct TipAccountResult {
    pub accounts: Vec<String>,
}

/// Relies on serde_json's indexing of a `Value` by `"result"`, `as_array` and
/// `as_str`: the entries of the top-level `result` array (`None` where there
/// is no such array), each as its text where it is a string.
#[verifier::external_body]
fn result_entries(value: &serde_json::Value) -> (r: Option<Vec<Option<String>>>) {
    match value["result"].as_array() {
        Some(items) => {
            let mut out = Vec::new();
            for v in items {
                out.push(v.as_str().map(String::from));
            }
            Some(out)
        },
        None => None,
    }
}

impl TipAccountResult {
    /// The accounts of a `result` array whose entries are all strings; an
    /// error where there is no array or an entry is not a string.
    pub fn from_entries(entries: Option<Vec<Option<String>>>) -> (r: Result<Self, String>)
        ensures
            entries is None ==> (r matches Err(m) && m@ == "expected 'result' to be an array"@),
            entries matches Some(v) ==> {
                &&& r is Ok <==> forall|i: int| 0 <= i < v@.len() ==> (#[trigger] v@[i]) is Some
                &&& r matches Err(m) ==> m@ == "expected every tip account to be a string"@
                &&& r matches Ok(t) ==> t.accounts@.len() == v@.len() && forall|i: int|
                    0 <= i < v@.len() ==> #[trigger] t.accounts@[i] == v@[i]->Some_0
            },
    {
        let list = match entries {
            Some(v) => v,
            None => {
                return Err(string_of("expected 'result' to be an array"));
            },
        };
        let ghost orig = list@;
        let n = list.len();
        let mut rest = list;
        let mut accounts: Vec<String> = Vec::new();
        let mut k: usize = 0;
        while k < n
            invariant
                entries is Some,
                entries->Some_0@ == orig,
                n == orig.len(),
                k <= n,
                rest@ == orig.subrange(k as int, n as int),
                accounts@.len() == k,
                forall|j: int| 0 <= j < k ==> (#[trigger] orig[j]) is Some,
                forall|j: int| 0 <= j < k ==> #[trigger] accounts@[j] == orig[j]->Some_0,
            decreases n - k,
        {
            let entry = rest.remove(0);
            assert(entry == orig[k as int]);
            match entry {
                Some(a) => accounts.push(a),
                None => {
                    return Err(string_of("expected every tip account to be a string"));
                },
            }
            k = k + 1;
            assert(rest@ =~= orig.subrange(k as int, n as int));
        }
        Ok(TipAccountResult { accounts })
    }

    /// Reads the tip accounts from a block engine reply.
    pub fn from(value: serde_json::Value) -> (r: Result<Self, String>) {
        TipAccountResult::from_entries(result_entries(&value))
    }
}

} // verus!
