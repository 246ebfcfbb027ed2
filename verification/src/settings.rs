//! The policy's parameters, resolved once per checkpoint.

use crate::document::{ini_sections, lookup, parse_document, parsed_ini, section_value};
use crate::text::{number_from_text, parse_number, same_text};
use crate::{Actions, ResultCode};
use vstd::prelude::*;

verus! {

/// Where the tallies are kept unless the configuration says otherwise.
pub const DEFAULT_TALLY_DIR: &'static str = "/var/run/rampdelay";

/// Where the configuration is looked for.
pub const DEFAULT_CONFIG_FILE_PATH: &'static str = "/etc/security/rampdelay.conf";

/// A user as the system's account database knows it.
#[derive(Debug, Clone)]
pub struct UserIdentity {
    pub uid: u32,
    pub name: String,
    pub primary_group: u32,
}

/// A user, as contracts speak of it.
pub ghost struct UserView {
    pub uid: u32,
    pub name: Seq<char>,
    pub primary_group: u32,
}

impl View for UserIdentity {
    type V = UserView;

    open spec fn view(&self) -> UserView {
        UserView { uid: self.uid, name: self.name@, primary_group: self.primary_group }
    }
}

impl UserIdentity {
    pub fn new(uid: u32, name: &str, primary_group: u32) -> (r: UserIdentity)
        ensures
            r@ == (UserView { uid, name: name@, primary_group }),
    {
        UserIdentity { uid, name: String::from_str(name), primary_group }
    }

    pub fn uid(&self) -> (r: u32)
        ensures
            r == self.uid,
    {
        self.uid
    }

    pub fn name(&self) -> (r: &str)
        ensures
            r@ == self.name@,
    {
        self.name.as_str()
    }

    pub fn primary_group_id(&self) -> (r: u32)
        ensures
            r == self.primary_group,
    {
        self.primary_group
    }
}

/// The parameters of one checkpoint.
#[derive(Debug)]
pub struct Settings {
    /// The checkpoint, or `None` where the host named none that is known.
    pub action: Option<Actions>,
    /// The user whose attempts are counted.
    pub user: Option<UserIdentity>,
    /// The directory of the tally records.
    pub tally_dir: String,
    /// Failures that are let through before any delay.
    pub free_tries: u32,
    /// The shortest lock, in seconds.
    pub base_delay_seconds: u32,
    /// How fast the lock grows with further failures.
    pub ramp_multiplier: u32,
}

/// Settings, as contracts speak of them.
pub ghost struct SettingsView {
    pub action: Option<Actions>,
    pub user: Option<UserView>,
    pub tally_dir: Seq<char>,
    pub free_tries: u32,
    pub base_delay_seconds: u32,
    pub ramp_multiplier: u32,
}

impl View for Settings {
    type V = SettingsView;

    open spec fn view(&self) -> SettingsView {
        SettingsView {
            action: self.action,
            user: match self.user {
                Some(user) => Some(user@),
                None => None,
            },
            tally_dir: self.tally_dir@,
            free_tries: self.free_tries,
            base_delay_seconds: self.base_delay_seconds,
            ramp_multiplier: self.ramp_multiplier,
        }
    }
}

/// The settings that hold where nothing is configured.
pub open spec fn default_settings() -> SettingsView {
    SettingsView {
        action: Some(Actions::AUTHSUCC),
        user: None,
        tally_dir: DEFAULT_TALLY_DIR@,
        free_tries: 6,
        base_delay_seconds: 30,
        ramp_multiplier: 50,
    }
}

impl Default for Settings {
    fn default() -> (r: Settings)
        ensures
            r@ == default_settings(),
    {
        Settings {
            tally_dir: String::from_str(DEFAULT_TALLY_DIR),
            action: Some(Actions::AUTHSUCC),
            user: None,
            free_tries: 6,
            base_delay_seconds: 30,
            ramp_multiplier: 50,
        }
    }
}

/// The checkpoint that one argument of the host names, if it names one.
pub open spec fn token_action(token: Seq<char>) -> Option<Actions> {
    if token == "preauth"@ {
        Some(Actions::PREAUTH)
    } else if token == "authsucc"@ {
        Some(Actions::AUTHSUCC)
    } else if token == "authfail"@ {
        Some(Actions::AUTHFAIL)
    } else {
        None
    }
}

/// The checkpoint named by the first argument that names one.
pub open spec fn first_action(args: Seq<Seq<char>>) -> Option<Actions>
    decreases args.len(),
{
    if args.len() == 0 {
        None
    } else {
        match token_action(args[0]) {
            Some(action) => Some(action),
            None => first_action(args.skip(1)),
        }
    }
}

/// The arguments as texts.
pub open spec fn arg_texts(args: Seq<&str>) -> Seq<Seq<char>> {
    Seq::new(args.len(), |i: int| args[i]@)
}

/// Reads one argument of the host.
pub fn action_of_token(token: &str) -> (r: Option<Actions>)
    ensures
        r == token_action(token@),
{
    if same_text(token, "preauth") {
        Some(Actions::PREAUTH)
    } else if same_text(token, "authsucc") {
        Some(Actions::AUTHSUCC)
    } else if same_text(token, "authfail") {
        Some(Actions::AUTHFAIL)
    } else {
        None
    }
}

/// Finds the checkpoint among the host's arguments: the first one that is
/// known decides, and `None` is returned where none is.
pub fn action_from_args(args: &Vec<&str>) -> (r: Option<Actions>)
    ensures
        r == first_action(arg_texts(args@)),
{
    let ghost texts = arg_texts(args@);
    let mut i: usize = 0;
    assert(texts.skip(0) =~= texts);
    while i < args.len()
        invariant
            i <= args.len(),
            texts == arg_texts(args@),
            first_action(texts) == first_action(texts.skip(i as int)),
        decreases args.len() - i,
    {
        let found = action_of_token(args[i]);
        proof {
            assert(texts.skip(i as int)[0] == args@[i as int]@);
            assert(texts.skip(i as int).skip(1) =~= texts.skip(i as int + 1));
        }
        if found.is_some() {
            return found;
        }
        i += 1;
    }
    assert(texts.skip(i as int).len() == 0);
    None
}

/// Arguments of which none is a known token name no checkpoint.
pub proof fn lemma_no_known_token_names_no_checkpoint(args: Seq<Seq<char>>)
    requires
        forall|i: int| 0 <= i < args.len() ==> (#[trigger] token_action(args[i])) is None,
    ensures
        first_action(args) is None,
    decreases args.len(),
{
    if args.len() > 0 {
        let rest = args.skip(1);
        assert forall|i: int| 0 <= i < rest.len() implies (#[trigger] token_action(rest[i]))
            is None by {
            assert(rest[i] == args[i + 1]);
        }
        lemma_no_known_token_names_no_checkpoint(rest);
    }
}

/// The first known token decides, whatever follows it.
pub proof fn lemma_first_known_token_decides(args: Seq<Seq<char>>, at: int)
    requires
        0 <= at < args.len(),
        token_action(args[at]) is Some,
        forall|i: int| 0 <= i < at ==> (#[trigger] token_action(args[i])) is None,
    ensures
        first_action(args) == token_action(args[at]),
    decreases at,
{
    if at > 0 {
        let rest = args.skip(1);
        assert(rest[at - 1] == args[at]);
        assert forall|i: int| 0 <= i < at - 1 implies (#[trigger] token_action(rest[i]))
            is None by {
            assert(rest[i] == args[i + 1]);
        }
        lemma_first_known_token_decides(rest, at - 1);
    }
}

/// The text configured for `key`, or `fallback` where there is no
/// configuration, no section `Settings` in it, or no such key.
pub open spec fn configured_text(
    conf: Option<Map<Seq<char>, Map<Seq<char>, Seq<char>>>>,
    key: Seq<char>,
    fallback: Seq<char>,
) -> Seq<char> {
    match conf {
        Some(sections) => match section_value(sections, "Settings"@, key) {
            Some(value) => value,
            None => fallback,
        },
        None => fallback,
    }
}

/// The number configured for `key`, or `fallback` where there is none or its
/// text is no number.
pub open spec fn configured_number(
    conf: Option<Map<Seq<char>, Map<Seq<char>, Seq<char>>>>,
    key: Seq<char>,
    fallback: u32,
) -> u32 {
    match conf {
        Some(sections) => match section_value(sections, "Settings"@, key) {
            Some(value) => match number_from_text(value) {
                Some(number) => number,
                None => fallback,
            },
            None => fallback,
        },
        None => fallback,
    }
}

/// The settings that a user, the host's arguments and a configuration give.
pub open spec fn resolved(
    user: UserView,
    args: Seq<Seq<char>>,
    conf: Option<Map<Seq<char>, Map<Seq<char>, Seq<char>>>>,
) -> SettingsView {
    SettingsView {
        action: first_action(args),
        user: Some(user),
        tally_dir: configured_text(conf, "tally_dir"@, default_settings().tally_dir),
        free_tries: configured_number(conf, "free_tries"@, default_settings().free_tries),
        base_delay_seconds: configured_number(
            conf,
            "base_delay"@,
            default_settings().base_delay_seconds,
        ),
        ramp_multiplier: configured_number(
            conf,
            "ramp_multiplier"@,
            default_settings().ramp_multiplier,
        ),
    }
}

/// The sections of a document that may be missing.
pub open spec fn sections_of(doc: Option<&ini::Ini>) -> Option<
    Map<Seq<char>, Map<Seq<char>, Seq<char>>>,
> {
    match doc {
        Some(doc) => Some(ini_sections(*doc)),
        None => None,
    }
}

/// What a configuration text holds: nothing where there is no text or where
/// its syntax is wrong.
pub open spec fn configuration(text: Option<&str>) -> Option<
    Map<Seq<char>, Map<Seq<char>, Seq<char>>>,
> {
    match text {
        Some(text) => parsed_ini(text@),
        None => None,
    }
}

/// Looks a text up in the section `Settings`.
pub fn text_setting(doc: Option<&ini::Ini>, key: &str, fallback: &str) -> (r: String)
    ensures
        r@ == configured_text(sections_of(doc), key@, fallback@),
{
    match doc {
        Some(doc) => match lookup(doc, "Settings", key) {
            Some(value) => String::from_str(value),
            None => String::from_str(fallback),
        },
        None => String::from_str(fallback),
    }
}

/// Looks a number up in the section `Settings`.
pub fn number_setting(doc: Option<&ini::Ini>, key: &str, fallback: u32) -> (r: u32)
    ensures
        r == configured_number(sections_of(doc), key@, fallback),
{
    match doc {
        Some(doc) => match lookup(doc, "Settings", key) {
            Some(value) => match parse_number(value) {
                Some(number) => number,
                None => fallback,
            },
            None => fallback,
        },
        None => fallback,
    }
}

impl Settings {
    /// Resolves the settings from a configuration that was already read.
    /// Without a user there are no settings: that is a `SystemError`.
    pub fn from_document(user: Option<UserIdentity>, args: Vec<&str>, doc: Option<&ini::Ini>) -> (r:
        Result<Settings, ResultCode>)
        ensures
            match r {
                Ok(settings) => user is Some && settings@ == resolved(
                    user.unwrap()@,
                    arg_texts(args@),
                    sections_of(doc),
                ),
                Err(code) => user is None && code == ResultCode::SystemError,
            },
    {
        match user {
            None => Err(ResultCode::SystemError),
            Some(user) => Ok(
                Settings {
                    action: action_from_args(&args),
                    user: Some(user),
                    tally_dir: text_setting(doc, "tally_dir", DEFAULT_TALLY_DIR),
                    free_tries: number_setting(doc, "free_tries", 6),
                    base_delay_seconds: number_setting(doc, "base_delay", 30),
                    ramp_multiplier: number_setting(doc, "ramp_multiplier", 50),
                },
            ),
        }
    }

    /// Resolves the settings of one checkpoint. `config` is the text of the
    /// configuration file, `None` where it could not be read. A key that is
    /// missing or unreadable, a missing section and a text with wrong syntax
    /// all leave the defaults in place; only a missing user is an error.
    pub fn build(user: Option<UserIdentity>, args: Vec<&str>, _flags: u32, config: Option<&str>) -> (r:
        Result<Settings, ResultCode>)
        ensures
            match r {
                Ok(settings) => user is Some && settings@ == resolved(
                    user.unwrap()@,
                    arg_texts(args@),
                    configuration(config),
                ),
                Err(code) => user is None && code == ResultCode::SystemError,
            },
    {
        let doc = match config {
            Some(text) => parse_document(text),
            None => None,
        };
        Settings::from_document(user, args, doc.as_ref())
    }
}

} // verus!
