//! What happens once at launch: in a development build the primary window
//! is sent to the saved URL, or to the default where none is saved.
use vstd::prelude::*;
use vstd::string::*;
use crate::config::{
    default_url_text, read_saved_url, saved_url_read, slice_view, startup_url, text_view,
};
use crate::navigation::{navigation_script, script_for};

verus! {

/// The script to run at launch, if any: none outside development and none
/// without a primary window; else the script for the saved URL, or for the
/// default where reading the configuration gave nothing.
pub open spec fn startup_script(
    development: bool,
    main_window_open: bool,
    contents: Option<Seq<char>>,
) -> Option<Seq<char>> {
    if development && main_window_open {
        Some(
            script_for(
                match saved_url_read(contents) {
                    Some(url) => url,
                    None => default_url_text(),
                },
            ),
        )
    } else {
        None
    }
}

/// Decides the navigation at launch. `contents` is the text of the
/// configuration file, where it could be read.
pub fn startup_navigation(development: bool, main_window_open: bool, contents: Option<&str>) -> (r:
    Option<String>)
    ensures
        text_view(r) == startup_script(development, main_window_open, slice_view(contents)),
{
    if development && main_window_open {
        let url = startup_url(read_saved_url(contents));
        Some(navigation_script(url.as_str()))
    } else {
        None
    }
}

} // verus!
