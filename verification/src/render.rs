//! The console table renderer, as a capability: given column titles and
//! rows of cell text, it draws the table somewhere and reports success or
//! failure. Each implementation describes through `render_result` which
//! tables it accepts and what message it fails with.

use vstd::prelude::*;

verus! {

use vstd::string::StringExecFns;

pub trait TableRenderer: Sized {
    spec fn render_result(&self, titles: Seq<Seq<char>>, rows: Seq<Seq<Seq<char>>>) -> Result<
        (),
        Seq<char>,
    >;

    fn render(&self, titles: &Vec<String>, rows: &Vec<Vec<String>>) -> (r: Result<(), String>)
        ensures
            match r {
                Ok(_) => self.render_result(titles.deep_view(), rows.deep_view()) is Ok,
                Err(e) => self.render_result(titles.deep_view(), rows.deep_view()) == Err::<
                    (),
                    Seq<char>,
                >(e@),
            },
    ;
}

/// A deterministic stand-in for the console renderer, for testing: it
/// accepts every table, or refuses every table with a fixed message when
/// `should_error` is set.
pub struct TableRendererFake {
    pub should_error: bool,
    pub error_message: String,
}

impl TableRenderer for TableRendererFake {
    open spec fn render_result(&self, titles: Seq<Seq<char>>, rows: Seq<Seq<Seq<char>>>) -> Result<
        (),
        Seq<char>,
    > {
        if self.should_error {
            Err(self.error_message@)
        } else {
            Ok(())
        }
    }

    fn render(&self, titles: &Vec<String>, rows: &Vec<Vec<String>>) -> (r: Result<(), String>) {
        if self.should_error {
            Err(self.error_message.clone())
        } else {
            Ok(())
        }
    }
}

} // verus!
