//! Key bindings.

pub mod key_list;

use crate::keys::key_list::KeysList;
use std::rc::Rc;
use vstd::prelude::*;

verus! {

/// The key bindings in force.
#[derive(Clone)]
pub struct KeyConfig {
    pub keys: KeysList,
}

/// Key bindings shared by the parts of the front-end.
pub type SharedKeyConfig = Rc<KeyConfig>;

/// `Rc::clone`: one more handle on the same bindings.
#[verifier::external_body]
pub(crate) fn share(key_config: &SharedKeyConfig) -> (shared: SharedKeyConfig)
    ensures
        shared == *key_config,
{
    Rc::clone(key_config)
}

} // verus!
