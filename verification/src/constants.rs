use vstd::prelude::*;

verus! {

/// The Steam application id of Diablo II: Resurrected.
pub const D2R_STEAM_APP_ID: u32 = 2536520;

/// The file name of the game's executable.
pub const D2R_EXE: &'static str = "D2R.exe";

/// The file name of the launcher's configuration, kept next to the launcher.
pub const CONFIG_FILE: &'static str = "config.json";

} // verus!
