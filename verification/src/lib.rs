//! Verified core of the Spacebot desktop shell: the rules by which it reads and
//! writes its connection settings, parses global shortcuts, decides what the
//! voice overlay and the shortcut handler do, and how its local proxy forwards
//! requests and answers a Umbrel login redirect.

pub mod keys;
pub mod overlay;
pub mod proxy;
pub mod settings;
pub mod text;

use vstd::prelude::*;

verus! {

/// Port on which the local proxy listens.
pub const PROXY_PORT: u16 = 19777;

/// Returns the proxy port so the frontend knows where to connect.
pub fn get_proxy_port() -> (port: u16)
    ensures
        port == PROXY_PORT,
{
    PROXY_PORT
}

} // verus!
