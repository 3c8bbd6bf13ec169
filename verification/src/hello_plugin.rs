//! The values of the bundled hello-world plugin.
//!
//! A conforming plugin is a shared library exporting `name`, `version`,
//! `start` and `stop`. This module holds what those four exports of the
//! bundled example compute: its identity texts and its status codes. The
//! shared-library packaging, and the console greetings its `start` and
//! `stop` print before returning, belong to the plugin binary; the values
//! here are what the host layer sees of it.

use vstd::prelude::*;
use vstd::string::StringExecFns;

verus! {

/// The display name the example plugin's `name` export returns.
pub fn name() -> (r: String)
    ensures
        r@ == "hello-world-plugin"@,
{
    String::from_str("hello-world-plugin")
}

/// The version text the example plugin's `version` export returns.
pub fn version() -> (r: String)
    ensures
        r@ == "0.1.0"@,
{
    String::from_str("0.1.0")
}

/// The status code the example plugin's `start` export returns: success.
pub fn start() -> (r: i32)
    ensures
        r == 0,
{
    0
}

/// The status code the example plugin's `stop` export returns: success.
pub fn stop() -> (r: i32)
    ensures
        r == 0,
{
    0
}

} // verus!
