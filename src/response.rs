//! Answers of the exchange: the account's balances, the error envelope, and
//! how a decoded answer becomes the result of a call.

use vstd::prelude::*;
use vstd::string::*;
use crate::model::Error;

verus! {

/// One asset's holdings, amounts kept as the exchange wrote them.
#[derive(Clone, Debug)]
pub struct Balance {
    pub asset: String,
    pub free: String,
    pub locked: String,
}

/// The part of the account information that this library reads.
#[derive(Clone, Debug)]
pub struct AccountInformation {
    pub can_trade: bool,
    pub can_withdraw: bool,
    pub can_deposit: bool,
    pub update_time: u64,
    /// In the order the exchange sent them.
    pub balances: Vec<Balance>,
}

/// Whether `i` is the first balance of the asset.
pub open spec fn is_first_balance(bs: Seq<Balance>, asset: Seq<char>, i: int) -> bool {
    &&& 0 <= i < bs.len()
    &&& bs[i].asset@ == asset
    &&& forall|j: int| 0 <= j < i ==> bs[j].asset@ != asset
}

/// Whether some balance is of the asset.
pub open spec fn has_balance(bs: Seq<Balance>, asset: Seq<char>) -> bool {
    exists|i: int| 0 <= i < bs.len() && bs[i].asset@ == asset
}

pub open spec fn asset_not_found_msg() -> Seq<char> {
    "Asset not found"@
}

fn copy_balance(b: &Balance) -> (r: Balance)
    ensures
        r == *b,
{
    Balance { asset: b.asset.clone(), free: b.free.clone(), locked: b.locked.clone() }
}

impl AccountInformation {
    /// The balance of one asset: the first one the exchange listed for it.
    pub fn get_balance(&self, asset: &str) -> (r: Result<Balance, Error>)
        ensures
            r is Ok <==> has_balance(self.balances@, asset@),
            r matches Ok(b) ==> exists|i: int|
                is_first_balance(self.balances@, asset@, i) && b == #[trigger] self.balances@[i],
            r matches Err(e) ==> (e matches Error::NotFound { msg } && msg@ == asset_not_found_msg()),
    {
        let wanted = String::from_str(asset);
        let mut i: usize = 0;
        while i < self.balances.len()
            invariant
                i <= self.balances@.len(),
                wanted@ == asset@,
                forall|j: int| 0 <= j < i ==> self.balances@[j].asset@ != asset@,
            decreases self.balances@.len() - i,
        {
            if self.balances[i].asset == wanted {
                let b = copy_balance(&self.balances[i]);
                assert(is_first_balance(self.balances@, asset@, i as int));
                return Ok(b);
            }
            i = i + 1;
        }
        Err(Error::NotFound { msg: String::from_str("Asset not found") })
    }
}

/// The exchange's error answer: a numeric code and a message.
#[derive(Clone, Debug)]
pub struct ApiErrorEnvelope {
    pub code: i64,
    pub msg: String,
}

pub open spec fn unreadable_msg() -> Seq<char> {
    "answer is neither the expected body nor an error envelope"@
}

/// The result of a call, from its answer decoded once as the expected body
/// and once as the error envelope: the body where it decoded, else the
/// exchange's error with its code and message verbatim, else a transport
/// error.
pub fn resolve_response<T>(success: Option<T>, envelope: Option<ApiErrorEnvelope>) -> (r: Result<T, Error>)
    ensures
        success matches Some(v) ==> r == Ok::<T, Error>(v),
        success is None && envelope is Some ==> r == Err::<T, Error>(
            Error::Api { code: envelope->Some_0.code, msg: envelope->Some_0.msg },
        ),
        success is None && envelope is None ==> (r matches Err(Error::Transport { msg }) && msg@
            == unreadable_msg()),
{
    match success {
        Some(v) => Ok(v),
        None => match envelope {
            Some(e) => Err(Error::Api { code: e.code, msg: e.msg }),
            None => Err(
                Error::Transport {
                    msg: String::from_str("answer is neither the expected body nor an error envelope"),
                },
            ),
        },
    }
}

} // verus!
