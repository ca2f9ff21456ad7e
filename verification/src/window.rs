//! The window capability consumed by callers of the bootstrap: platform
//! window types implement this to create, run and decorate native windows.
//! All of that is platform glue performed outside this core; only the
//! contract lives here.

use vstd::prelude::*;

verus! {

pub trait Window {
    fn new(
        id: String,
        pos_x: i32,
        pos_y: i32,
        width: i32,
        height: i32,
        title: String,
    ) -> Result<Self, ()> where Self: Sized;

    fn create_child_window(&mut self);

    fn create_dialog_window(&mut self);

    fn create_message_dialog(&mut self, message: String, title: String);
}

} // verus!
