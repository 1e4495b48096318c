//! Recordings of a terminal for reference tests.

use vstd::prelude::*;
use vstd::string::*;

use crate::decimal::{decimal, decimal_string};
use crate::trusted::{term_size_json, term_size_text};
use crate::window_context::WindowContext;

verus! {

/// A file of a recording.
#[derive(Clone, Debug, PartialEq, Eq)]
pub struct RefTestFile {
    /// Where the file goes.
    pub path: String,
    /// What it holds.
    pub contents: String,
}

impl View for RefTestFile {
    type V = (Seq<char>, Seq<char>);

    open spec fn view(&self) -> (Seq<char>, Seq<char>) {
        (self.path@, self.contents@)
    }
}

/// The JSON object that describes the configuration of a recorded terminal.
pub open spec fn ref_config_text(history_size: nat) -> Seq<char> {
    "{\"history_size\":"@ + decimal(history_size) + "}"@
}

fn ref_config_json(history_size: usize) -> (r: String)
    ensures
        r@ == ref_config_text(history_size as nat),
{
    let mut r = String::from_str("{\"history_size\":");
    r.append(decimal_string(history_size).as_str());
    r.append("}");
    r
}

impl<H, E> WindowContext<H, E> {
    /// The ref test results that belong on the disk, in the order in which they are written.
    ///
    /// `grid` is the active tab's grid as JSON, and `history_size` the number of lines in its
    /// history.
    pub fn write_ref_test_results(&self, grid: String, history_size: usize) -> (r: Vec<RefTestFile>)
        ensures
            r.len() == 3,
            r@[0]@ == ("./grid.json"@, grid@),
            r@[1]@ == ("./size.json"@, term_size_text(
                self@.display.size_info.columns as nat,
                self@.display.size_info.screen_lines as nat,
            )),
            r@[2]@ == ("./config.json"@, ref_config_text(history_size as nat)),
    {
        let size = self.display.size_info;
        let mut r: Vec<RefTestFile> = Vec::new();
        r.push(RefTestFile { path: String::from_str("./grid.json"), contents: grid });
        r.push(
            RefTestFile {
                path: String::from_str("./size.json"),
                contents: term_size_json(size.columns, size.screen_lines),
            },
        );
        r.push(
            RefTestFile {
                path: String::from_str("./config.json"),
                contents: ref_config_json(history_size),
            },
        );
        r
    }
}

} // verus!
