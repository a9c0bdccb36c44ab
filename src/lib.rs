//! A bridge that exposes one named operation to a host application. The
//! operation launches an `echo` process and hands its captured standard
//! output, or a description of why the launch failed, back to the host.
//!
//! The library holds the decisions: which process is launched, how a launch
//! outcome becomes the reply, and how the host finds the operation by name.
//! Launching the process is left to the host.
use vstd::prelude::*;

pub mod registry;
pub mod spawn;

verus! {

} // verus!
