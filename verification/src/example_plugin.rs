//! A small concrete plugin: its transforms are stand-ins for arbitrary
//! plugin behavior (add one, double, subtract two, wrapping on overflow so
//! that the hooks stay infallible, as the capability contract demands).
use vstd::prelude::*;

use crate::plugin::ExamplePlugin;
use crate::plugin::Plugin;

verus! {

/// A plugin that adds 1 before the operation, multiplies by 2 as the
/// operation, and subtracts 2 afterwards.
pub struct MyExamplePlugin {}

impl Plugin for MyExamplePlugin {
    fn name(&self) -> (r: &'static str) {
        "TestPlugin"
    }

    fn semantic_version(&self) -> (r: &'static str) {
        "0.1.0"
    }
}

impl ExamplePlugin for MyExamplePlugin {
    open spec fn pre_spec(&self, d: u32) -> u32 {
        vstd::wrapping::u32_specs::wrapping_add(d, 1)
    }

    open spec fn op_spec(&self, d: u32) -> u32 {
        vstd::wrapping::u32_specs::wrapping_mul(d, 2)
    }

    open spec fn post_spec(&self, d: u32) -> u32 {
        vstd::wrapping::u32_specs::wrapping_sub(d, 2)
    }

    fn name(&self) -> (r: &'static str) {
        Plugin::name(self)
    }

    fn semantic_version(&self) -> (r: &'static str) {
        Plugin::semantic_version(self)
    }

    fn pre_operation(&self, data: &mut u32) {
        *data = data.wrapping_add(1);
    }

    fn operation(&self, data: &mut u32) {
        *data = data.wrapping_mul(2);
    }

    fn post_operation(&self, data: &mut u32) {
        *data = data.wrapping_sub(2);
    }
}

} // verus!
