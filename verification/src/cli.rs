//! What follows from the options of the command line.

use vstd::prelude::*;

use crate::error::{PristError, Result};
use crate::paths::{Location, LocationView, PristHome};
use crate::releases::Platform;
use crate::text::opt_text;

verus! {

/// The home: the one given on the command line, else the one that is found.
pub fn resolve_home(
    given: Option<String>,
    platform: Platform,
    prist_home: Option<String>,
    local_app_data: Option<String>,
    home_dir: Option<String>,
) -> (r: Result<PristHome>)
    ensures
        match (r, given) {
            (Ok(h), Some(path)) => h.root@ == LocationView::at(path@),
            (Ok(h), None) => PristHome::found(
                platform,
                opt_text(prist_home),
                opt_text(local_app_data),
                opt_text(home_dir),
            ) == Some(h.root@),
            (Err(PristError::Other(m)), None) => PristHome::found(
                platform,
                opt_text(prist_home),
                opt_text(local_app_data),
                opt_text(home_dir),
            ) is None && m@ == "could not determine the user home directory"@,
            (Err(_), _) => false,
        },
{
    match given {
        Some(path) => Ok(PristHome { root: Location::at(path.as_str()) }),
        None => PristHome::find(platform, prist_home, local_app_data, home_dir),
    }
}

/// The messages that are logged, by how often the user asked for more.
pub fn log_filter(verbose: u8) -> (r: &'static str)
    ensures
        r@ == match verbose {
            0 => "prist=warn"@,
            1 => "prist=info"@,
            2 => "prist=debug"@,
            _ => "prist=trace"@,
        },
{
    match verbose {
        0 => "prist=warn",
        1 => "prist=info",
        2 => "prist=debug",
        _ => "prist=trace",
    }
}

} // verus!
