//! Deployment configuration: the listening port and the Evaluation Service
//! key, both optional. A deployment without a key runs with no Evaluation
//! Service, and every request is forwarded.

use vstd::prelude::*;

verus! {

/// What a deployment is started with.
#[derive(Clone)]
pub struct AppConfig {
    pub port: Option<u16>,
    pub configcat_sdk_key: Option<String>,
}

} // verus!
