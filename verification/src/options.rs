//! The part of the configuration that is known before a user is.

use crate::document::parse_document;
use crate::settings::{
    action_from_args, arg_texts, configuration, configured_text, first_action, text_setting,
    DEFAULT_TALLY_DIR,
};
use crate::Actions;
use vstd::prelude::*;

verus! {

/// The checkpoint and the place of the tallies.
#[derive(Debug)]
pub struct Options {
    pub action: Option<Actions>,
    pub tally_dir: String,
}

/// Options, as contracts speak of them.
pub ghost struct OptionsView {
    pub action: Option<Actions>,
    pub tally_dir: Seq<char>,
}

impl View for Options {
    type V = OptionsView;

    open spec fn view(&self) -> OptionsView {
        OptionsView { action: self.action, tally_dir: self.tally_dir@ }
    }
}

impl Default for Options {
    fn default() -> (r: Options)
        ensures
            r@ == (OptionsView { action: None, tally_dir: DEFAULT_TALLY_DIR@ }),
    {
        Options { tally_dir: String::from_str(DEFAULT_TALLY_DIR), action: None }
    }
}

impl Options {
    /// Reads the options of one checkpoint. `config` is the text of the
    /// configuration file, `None` where it could not be read; whatever is
    /// missing in it leaves the default in place.
    pub fn build(_user: String, args: Vec<&str>, _flags: u32, config: Option<&str>) -> (r: Options)
        ensures
            r@ == (OptionsView {
                action: first_action(arg_texts(args@)),
                tally_dir: configured_text(configuration(config), "tally_dir"@, DEFAULT_TALLY_DIR@),
            }),
    {
        let doc = match config {
            Some(text) => parse_document(text),
            None => None,
        };
        Options {
            action: action_from_args(&args),
            tally_dir: text_setting(doc.as_ref(), "tally_dir", DEFAULT_TALLY_DIR),
        }
    }
}

} // verus!
