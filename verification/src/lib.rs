pub mod image;
pub mod rand;
pub mod scene;

pub use crate::image::Image;
pub use crate::rand::Rand;
pub use crate::scene::MaterialId;
pub use crate::scene::Scene;

use vstd::prelude::*;
use vstd::string::StringExecFns;

verus! {

/// Greeting line that a hosting front end may log once the engine is loaded.
pub fn hello_raylib() -> (message: String)
    ensures
        message@ == "hello from raylib"@,
{
    String::from_str("hello from raylib")
}

} // verus!
