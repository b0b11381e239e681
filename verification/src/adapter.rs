//! The adapter that the application works with, and the adapters as they
//! are listed to the application.

use vstd::prelude::*;
use crate::device::{AdapterModel, BleAdapter};
use crate::errors::{BleError, BleErrorModel, StackCall};

verus! {

/// An adapter as it is listed, from what the stack reported of it: the
/// identifier is `unknown` and the address empty where the stack gave none,
/// and the adapter counts as powered unless the stack says that Bluetooth is
/// disabled.
pub open spec fn listed_adapter(
    identifier: Option<Seq<char>>,
    address: Option<Seq<char>>,
    enabled: Option<bool>,
) -> AdapterModel {
    AdapterModel {
        identifier: match identifier {
            Some(id) => id,
            None => "unknown"@,
        },
        address: match address {
            Some(a) => a,
            None => ""@,
        },
        powered: enabled != Some(false),
    }
}

/// Lists an adapter from what the stack reported of it.
pub fn describe_adapter(identifier: Option<String>, address: Option<String>, enabled: Option<bool>) -> (adapter:
    BleAdapter)
    ensures
        adapter@ == listed_adapter(identifier.deep_view(), address.deep_view(), enabled),
{
    BleAdapter {
        identifier: match identifier {
            Some(id) => id,
            None => String::from_str("unknown"),
        },
        address: match address {
            Some(a) => a,
            None => String::from_str(""),
        },
        powered: match enabled {
            Some(state) => state,
            None => true,
        },
    }
}

/// The adapter cache after the stack listed its adapters: the first of them
/// where there is one, and what it held before otherwise.
pub open spec fn adopted<A>(held: Option<A>, listed: Result<Seq<A>, Seq<char>>) -> Option<A> {
    match listed {
        Ok(adapters) => if adapters.len() > 0 {
            Some(adapters[0])
        } else {
            held
        },
        Err(_) => held,
    }
}

/// The error of a listing that gives no adapter to work with; none where it
/// gives one.
pub open spec fn adoption_error<A>(listed: Result<Seq<A>, Seq<char>>) -> Option<BleErrorModel> {
    match listed {
        Ok(adapters) => if adapters.len() > 0 {
            None
        } else {
            Some(BleErrorModel::NoAdapterAvailable)
        },
        Err(cause) => Some(BleErrorModel::StackOperationFailed { call: StackCall::ResolveAdapter, cause }),
    }
}

/// The single adapter handle that the application works with. The handle
/// type is the caller's. Once taken from the stack's listing the handle is
/// reused; its liveness is not checked again.
pub struct AdapterCache<A> {
    slot: Option<A>,
}

impl<A> View for AdapterCache<A> {
    type V = Option<A>;

    closed spec fn view(&self) -> Option<A> {
        self.slot
    }
}

impl<A> AdapterCache<A> {
    /// A cache without a handle.
    pub fn new() -> (cache: AdapterCache<A>)
        ensures
            cache@ is None,
    {
        AdapterCache { slot: None }
    }

    /// The handle in the cache, if there is one.
    pub fn cached(&self) -> (adapter: Option<&A>)
        ensures
            match adapter {
                Some(a) => self@ == Some(*a),
                None => self@ is None,
            },
    {
        match &self.slot {
            Some(a) => Some(a),
            None => None,
        }
    }

    /// Takes the stack's listing of its adapters: the first adapter becomes
    /// the one to work with. A listing that failed, and an empty one, leave
    /// the cache as it is and are errors.
    pub fn adopt(&mut self, listed: Result<Vec<A>, String>) -> (result: Result<(), BleError>)
        ensures
            final(self)@ == adopted(
                old(self)@,
                match listed {
                    Ok(adapters) => Ok(adapters@),
                    Err(cause) => Err(cause@),
                },
            ),
            match result {
                Ok(_) => adoption_error::<A>(
                    match listed {
                        Ok(adapters) => Ok(adapters@),
                        Err(cause) => Err(cause@),
                    },
                ) is None,
                Err(error) => adoption_error::<A>(
                    match listed {
                        Ok(adapters) => Ok(adapters@),
                        Err(cause) => Err(cause@),
                    },
                ) == Some(error@),
            },
    {
        match listed {
            Ok(adapters) => {
                let mut adapters = adapters;
                if adapters.len() == 0 {
                    Err(BleError::NoAdapterAvailable)
                } else {
                    let first = adapters.swap_remove(0);
                    self.slot = Some(first);
                    Ok(())
                }
            },
            Err(cause) => Err(BleError::stack(StackCall::ResolveAdapter, cause)),
        }
    }
}

} // verus!
