//! Configuration pipeline: command-line flags and configuration-file text are
//! folded into a `SettingsInitializer` (all fields optional), interactively
//! supplied values fill the gaps, and `finalize` converts the result into a
//! fully-populated `Settings` or fails fast with a descriptive error.

use vstd::prelude::*;
use crate::strutil::{
    split_on, split_str, trim_spec, trim_str, views_of, view_of_opt_string, lemma_split_on_len,
    str_eq,
};

verus! {

/// A command-line flag, already resolved by the caller: for a configuration
/// file flag the carried string is the file's text, read by the caller.
pub enum Flag {
    ConfigFile(String),
}

impl View for Flag {
    type V = Seq<char>;

    open spec fn view(&self) -> Seq<char> {
        match self {
            Flag::ConfigFile(s) => s@,
        }
    }
}

/// The field of `Settings` that an error or a fill value refers to.
#[derive(Clone, Copy, PartialEq, Eq, Structural, Debug)]
pub enum SettingsField {
    Client,
    Guild,
    Secret,
    Token,
}

/// Why assembling a `Settings` failed.
#[derive(Debug)]
pub enum ConfigError {
    /// A required field was never given a value.
    MissingValue(SettingsField),
    /// A configuration-file line is not of the form `key=value`.
    BadConfigLine(String),
    /// A flag that needs an argument was the last command-line argument.
    MissingFlagArgument,
}

/// Settings while they are being collected: every field may still be absent.
pub struct SettingsInitializer {
    pub client: Option<String>,
    pub guild: Option<String>,
    pub secret: Option<String>,
    pub token: Option<String>,
}

/// Fully-resolved settings: every field has a value.
pub struct Settings {
    pub client: String,
    pub guild: String,
    pub secret: String,
    pub token: String,
}

/// Mathematical model of a `SettingsInitializer`: each field as an optional
/// character sequence.
pub struct SettingsInitializerView {
    pub client: Option<Seq<char>>,
    pub guild: Option<Seq<char>>,
    pub secret: Option<Seq<char>>,
    pub token: Option<Seq<char>>,
}

/// Mathematical model of a `Settings`: each field as a character sequence.
pub struct SettingsView {
    pub client: Seq<char>,
    pub guild: Seq<char>,
    pub secret: Seq<char>,
    pub token: Seq<char>,
}

impl View for SettingsInitializer {
    type V = SettingsInitializerView;

    open spec fn view(&self) -> SettingsInitializerView {
        SettingsInitializerView {
            client: view_of_opt_string(self.client),
            guild: view_of_opt_string(self.guild),
            secret: view_of_opt_string(self.secret),
            token: view_of_opt_string(self.token),
        }
    }
}

impl View for Settings {
    type V = SettingsView;

    open spec fn view(&self) -> SettingsView {
        SettingsView { client: self.client@, guild: self.guild@, secret: self.secret@, token: self.token@ }
    }
}

impl Settings {
    /// An empty settings object, ready to be filled field by field.
    pub fn new() -> (r: Settings)
        ensures
            r@.client == Seq::<char>::empty(),
            r@.guild == Seq::<char>::empty(),
            r@.secret == Seq::<char>::empty(),
            r@.token == Seq::<char>::empty(),
    {
        Settings { client: String::new(), guild: String::new(), secret: String::new(), token: String::new() }
    }
}

impl SettingsInitializer {
    /// Converts collected settings into final settings. Every field must have
    /// been given a value; the first missing field, in the order client,
    /// guild, secret, token, is reported as an error.
    pub fn finalize(self) -> (r: Result<Settings, ConfigError>)
        ensures
            match r {
                Ok(s) => {
                    &&& self@.client matches Some(c) && s@.client == c
                    &&& self@.guild matches Some(g) && s@.guild == g
                    &&& self@.secret matches Some(x) && s@.secret == x
                    &&& self@.token matches Some(t) && s@.token == t
                },
                Err(e) => {
                    &&& e matches ConfigError::MissingValue(f)
                    &&& f == first_missing_field(self@)->Some_0
                    &&& first_missing_field(self@) matches Some(_)
                },
            },
    {
        let SettingsInitializer { client, guild, secret, token } = self;
        let mut settings = Settings::new();
        match client {
            Some(v) => { settings.client = v; }
            None => { return Err(ConfigError::MissingValue(SettingsField::Client)); }
        }
        match guild {
            Some(v) => { settings.guild = v; }
            None => { return Err(ConfigError::MissingValue(SettingsField::Guild)); }
        }
        match secret {
            Some(v) => { settings.secret = v; }
            None => { return Err(ConfigError::MissingValue(SettingsField::Secret)); }
        }
        match token {
            Some(v) => { settings.token = v; }
            None => { return Err(ConfigError::MissingValue(SettingsField::Token)); }
        }
        Ok(settings)
    }
}

/// The model of collected settings after the option `key=val` is applied:
/// a known key sets its field, any other key changes nothing.
pub open spec fn apply_option(m: SettingsInitializerView, key: Seq<char>, val: Seq<char>) -> SettingsInitializerView {
    if key == "client"@ {
        SettingsInitializerView { client: Some(val), ..m }
    } else if key == "guild"@ {
        SettingsInitializerView { guild: Some(val), ..m }
    } else if key == "secret"@ {
        SettingsInitializerView { secret: Some(val), ..m }
    } else if key == "token"@ {
        SettingsInitializerView { token: Some(val), ..m }
    } else {
        m
    }
}

/// Maps a key to a field of the collected settings and sets that field to the
/// given value; an unrecognized key leaves the settings unchanged.
pub fn add_config_option(settings: &mut SettingsInitializer, key: &str, val: &str)
    ensures
        final(settings)@ == apply_option(old(settings)@, key@, val@),
{
    let v = String::from_str(val);
    if crate::strutil::str_eq(key, "client") {
        settings.client = Some(v);
    } else if crate::strutil::str_eq(key, "guild") {
        settings.guild = Some(v);
    } else if crate::strutil::str_eq(key, "secret") {
        settings.secret = Some(v);
    } else if crate::strutil::str_eq(key, "token") {
        settings.token = Some(v);
    }
}

/// The model of collected settings after absent fields are filled from the
/// given values: a field that already has a value keeps it.
pub open spec fn fill_missing(
    m: SettingsInitializerView,
    client: Option<Seq<char>>,
    guild: Option<Seq<char>>,
    secret: Option<Seq<char>>,
    token: Option<Seq<char>>,
) -> SettingsInitializerView {
    SettingsInitializerView {
        client: if m.client is Some { m.client } else { client },
        guild: if m.guild is Some { m.guild } else { guild },
        secret: if m.secret is Some { m.secret } else { secret },
        token: if m.token is Some { m.token } else { token },
    }
}

/// Fills each still-absent field from the matching argument, typically a value
/// the caller asked the user for. A field that already has a value keeps it.
pub fn handle_missing_configvals(
    settings: &mut SettingsInitializer,
    client: Option<String>,
    guild: Option<String>,
    secret: Option<String>,
    token: Option<String>,
)
    ensures
        final(settings)@ == fill_missing(
            old(settings)@,
            view_of_opt_string(client),
            view_of_opt_string(guild),
            view_of_opt_string(secret),
            view_of_opt_string(token),
        ),
{
    if settings.client.is_none() {
        settings.client = client;
    }
    if settings.guild.is_none() {
        settings.guild = guild;
    }
    if settings.secret.is_none() {
        settings.secret = secret;
    }
    if settings.token.is_none() {
        settings.token = token;
    }
}

/// The first field of the collected settings that still has no value, in the
/// order client, guild, secret, token; `None` when all are present.
pub open spec fn first_missing_field(v: SettingsInitializerView) -> Option<SettingsField> {
    if v.client is None {
        Some(SettingsField::Client)
    } else if v.guild is None {
        Some(SettingsField::Guild)
    } else if v.secret is None {
        Some(SettingsField::Secret)
    } else if v.token is None {
        Some(SettingsField::Token)
    } else {
        None
    }
}

/// The lines of a configuration text: the pieces between newline characters,
/// with a final newline terminating the last line rather than opening an
/// empty one. An empty text has no lines.
pub open spec fn config_lines(s: Seq<char>) -> Seq<Seq<char>> {
    if s.len() == 0 {
        Seq::<Seq<char>>::empty()
    } else if s.last() == '\n' {
        split_on(s, '\n').drop_last()
    } else {
        split_on(s, '\n')
    }
}

/// A configuration line parsed as `key=value` after trimming: the key and
/// the value, or `None` when the trimmed line does not contain exactly one
/// `=`.
pub open spec fn parse_line(line: Seq<char>) -> Option<(Seq<char>, Seq<char>)> {
    let p = split_on(trim_spec(line), '=');
    if p.len() == 2 {
        Some((p[0], p[1]))
    } else {
        None
    }
}

/// Collected settings after the given lines are applied in order; a malformed
/// line stops the application at that point.
pub open spec fn apply_lines(m: SettingsInitializerView, lines: Seq<Seq<char>>) -> SettingsInitializerView
    decreases lines.len(),
{
    if lines.len() == 0 {
        m
    } else {
        match parse_line(lines[0]) {
            Some(kv) => apply_lines(apply_option(m, kv.0, kv.1), lines.drop_first()),
            None => m,
        }
    }
}

/// The first malformed line, trimmed, or `None` when every line parses.
pub open spec fn first_bad_line(lines: Seq<Seq<char>>) -> Option<Seq<char>>
    decreases lines.len(),
{
    if lines.len() == 0 {
        None
    } else if parse_line(lines[0]) is None {
        Some(trim_spec(lines[0]))
    } else {
        first_bad_line(lines.drop_first())
    }
}

/// Splits a configuration text into its lines.
fn split_config_lines(text: &str) -> (r: Vec<String>)
    ensures
        views_of(r@) == config_lines(text@),
{
    let len = text.unicode_len();
    if len == 0 {
        let r: Vec<String> = Vec::new();
        proof {
            assert(views_of(r@) =~= config_lines(text@));
        }
        return r;
    }
    let mut v = split_str(text, '\n');
    if text.get_char(len - 1) == '\n' {
        proof {
            lemma_split_on_len(text@, '\n');
        }
        let _last = v.pop();
        proof {
            assert(views_of(v@) =~= views_of(v@.push(_last.unwrap())).drop_last());
            assert(views_of(v@) =~= config_lines(text@));
        }
    }
    v
}

/// Parses configuration text of `key=value` lines and applies each option to
/// the collected settings. Application stops at the first malformed line,
/// which is reported (trimmed) in the error.
pub fn parse_config_text(text: &str, settings: &mut SettingsInitializer) -> (r: Result<(), ConfigError>)
    ensures
        final(settings)@ == apply_lines(old(settings)@, config_lines(text@)),
        match r {
            Ok(_) => first_bad_line(config_lines(text@)) is None,
            Err(e) => {
                &&& e matches ConfigError::BadConfigLine(l)
                &&& first_bad_line(config_lines(text@)) == Some(l@)
            },
        },
{
    let lines = split_config_lines(text);
    let ghost all: Seq<Seq<char>> = config_lines(text@);
    let mut i: usize = 0;
    proof {
        assert(all.skip(0) =~= all);
    }
    while i < lines.len()
        invariant
            i <= lines.len(),
            all == config_lines(text@),
            views_of(lines@) == all,
            apply_lines(old(settings)@, all) == apply_lines(settings@, all.skip(i as int)),
            first_bad_line(all) == first_bad_line(all.skip(i as int)),
        decreases lines.len() - i,
    {
        let ghost rest = all.skip(i as int);
        proof {
            assert(rest[0] == lines@[i as int]@);
            assert(rest.drop_first() =~= all.skip(i + 1));
        }
        let line: &String = &lines[i];
        let line_len = line.as_str().unicode_len();
        let trimmed = trim_str(line.as_str(), 0, line_len);
        proof {
            assert(line@.subrange(0, line@.len() as int) =~= line@);
        }
        let pieces = split_str(trimmed.as_str(), '=');
        if pieces.len() == 2 {
            proof {
                assert(views_of(pieces@)[0] == pieces@[0]@);
                assert(views_of(pieces@)[1] == pieces@[1]@);
                assert(parse_line(rest[0]) == Some((pieces@[0]@, pieces@[1]@)));
            }
            add_config_option(settings, pieces[0].as_str(), pieces[1].as_str());
        } else {
            proof {
                assert(views_of(pieces@).len() == pieces@.len());
                assert(trimmed@ == trim_spec(rest[0]));
                assert(parse_line(rest[0]) is None);
                assert(rest.len() > 0);
                assert(first_bad_line(rest) == Some(trim_spec(rest[0])));
                assert(apply_lines(settings@, rest) == settings@);
            }
            return Err(ConfigError::BadConfigLine(trimmed));
        }
        i += 1;
    }
    proof {
        assert(all.skip(i as int) =~= Seq::<Seq<char>>::empty());
    }
    Ok(())
}

/// Collected settings after each flag's configuration text is applied in
/// order; a malformed line stops the application.
pub open spec fn apply_texts(m: SettingsInitializerView, texts: Seq<Seq<char>>) -> SettingsInitializerView
    decreases texts.len(),
{
    if texts.len() == 0 {
        m
    } else if first_bad_line(config_lines(texts[0])) is Some {
        apply_lines(m, config_lines(texts[0]))
    } else {
        apply_texts(apply_lines(m, config_lines(texts[0])), texts.drop_first())
    }
}

/// The first malformed line over a sequence of configuration texts.
pub open spec fn first_bad_in_texts(texts: Seq<Seq<char>>) -> Option<Seq<char>>
    decreases texts.len(),
{
    if texts.len() == 0 {
        None
    } else {
        match first_bad_line(config_lines(texts[0])) {
            Some(l) => Some(l),
            None => first_bad_in_texts(texts.drop_first()),
        }
    }
}

/// The texts carried by a sequence of flags.
pub open spec fn flag_texts(flags: Seq<Flag>) -> Seq<Seq<char>> {
    flags.map_values(|f: Flag| f@)
}

/// Applies every flag to the collected settings: each configuration file's
/// text is parsed and folded in, stopping at the first malformed line.
pub fn handle_flags(flags: &Vec<Flag>, settings: &mut SettingsInitializer) -> (r: Result<(), ConfigError>)
    ensures
        final(settings)@ == apply_texts(old(settings)@, flag_texts(flags@)),
        match r {
            Ok(_) => first_bad_in_texts(flag_texts(flags@)) is None,
            Err(e) => {
                &&& e matches ConfigError::BadConfigLine(l)
                &&& first_bad_in_texts(flag_texts(flags@)) == Some(l@)
            },
        },
{
    let ghost all: Seq<Seq<char>> = flag_texts(flags@);
    let mut i: usize = 0;
    proof {
        assert(all.skip(0) =~= all);
    }
    while i < flags.len()
        invariant
            i <= flags.len(),
            all == flag_texts(flags@),
            apply_texts(old(settings)@, all) == apply_texts(settings@, all.skip(i as int)),
            first_bad_in_texts(all) == first_bad_in_texts(all.skip(i as int)),
        decreases flags.len() - i,
    {
        let ghost rest = all.skip(i as int);
        proof {
            assert(rest[0] == flags@[i as int]@);
            assert(rest.drop_first() =~= all.skip(i + 1));
        }
        let flag: &Flag = &flags[i];
        match flag {
            Flag::ConfigFile(text) => {
                let res = parse_config_text(text.as_str(), settings);
                match res {
                    Ok(_) => {}
                    Err(e) => {
                        return Err(e);
                    }
                }
            }
        }
        i += 1;
    }
    proof {
        assert(all.skip(i as int) =~= Seq::<Seq<char>>::empty());
    }
    Ok(())
}

/// The configuration-file paths named by `-f` flags among the command-line
/// arguments, or `None` when a `-f` is the last argument.
pub open spec fn scan_paths(args: Seq<Seq<char>>) -> Option<Seq<Seq<char>>>
    decreases args.len(),
{
    if args.len() == 0 {
        Some(Seq::<Seq<char>>::empty())
    } else if args[0] == "-f"@ {
        if args.len() == 1 {
            None
        } else {
            match scan_paths(args.skip(2)) {
                Some(r) => Some(seq![args[1]] + r),
                None => None,
            }
        }
    } else {
        scan_paths(args.drop_first())
    }
}

/// Extracts the configuration-file paths from the command-line arguments: the
/// argument after each `-f`. A `-f` with nothing after it is an error.
pub fn handle_arguments(args: &Vec<String>) -> (r: Result<Vec<String>, ConfigError>)
    ensures
        match r {
            Ok(paths) => scan_paths(views_of(args@)) == Some(views_of(paths@)),
            Err(e) => {
                &&& e matches ConfigError::MissingFlagArgument
                &&& scan_paths(views_of(args@)) is None
            },
        },
{
    let ghost all: Seq<Seq<char>> = views_of(args@);
    let mut out: Vec<String> = Vec::new();
    let mut i: usize = 0;
    proof {
        assert(all.skip(0) =~= all);
        assert(views_of(out@) =~= Seq::<Seq<char>>::empty());
    }
    while i < args.len()
        invariant
            i <= args.len(),
            all == views_of(args@),
            match scan_paths(all) {
                Some(r) => {
                    &&& scan_paths(all.skip(i as int)) matches Some(rr)
                    &&& r == views_of(out@) + rr
                },
                None => scan_paths(all.skip(i as int)) is None,
            },
        decreases args.len() - i,
    {
        let ghost rest = all.skip(i as int);
        proof {
            assert(rest[0] == args@[i as int]@);
        }
        if str_eq(args[i].as_str(), "-f") {
            if i + 1 == args.len() {
                proof {
                    assert(rest.len() == 1);
                    assert(scan_paths(rest) is None);
                }
                return Err(ConfigError::MissingFlagArgument);
            }
            proof {
                assert(rest[1] == args@[i + 1]@);
                assert(rest.skip(2) =~= all.skip(i + 2));
            }
            out.push(args[i + 1].clone());
            proof {
                assert(views_of(out@) =~= views_of(out@.drop_last()) + seq![args@[i + 1]@]);
            }
            i += 2;
        } else {
            proof {
                assert(rest.drop_first() =~= all.skip(i + 1));
            }
            i += 1;
        }
    }
    proof {
        assert(all.skip(i as int) =~= Seq::<Seq<char>>::empty());
    }
    Ok(out)
}

/// The empty collected settings: nothing resolved yet.
pub open spec fn empty_model() -> SettingsInitializerView {
    SettingsInitializerView { client: None, guild: None, secret: None, token: None }
}

/// Assembles final settings: starting from nothing, applies each flag's
/// configuration text, fills still-missing fields from the given values, and
/// finalizes. Fails on the first malformed configuration line or the first
/// field left without a value.
pub fn get_settings(
    flags: &Vec<Flag>,
    client: Option<String>,
    guild: Option<String>,
    secret: Option<String>,
    token: Option<String>,
) -> (r: Result<Settings, ConfigError>)
    ensures
        ({
            let filled = fill_missing(
                apply_texts(empty_model(), flag_texts(flags@)),
                view_of_opt_string(client),
                view_of_opt_string(guild),
                view_of_opt_string(secret),
                view_of_opt_string(token),
            );
            match r {
                Ok(s) => {
                    &&& first_bad_in_texts(flag_texts(flags@)) is None
                    &&& first_missing_field(filled) is None
                    &&& Some(s@.client) == filled.client
                    &&& Some(s@.guild) == filled.guild
                    &&& Some(s@.secret) == filled.secret
                    &&& Some(s@.token) == filled.token
                },
                Err(e) => match e {
                    ConfigError::BadConfigLine(l) => first_bad_in_texts(flag_texts(flags@))
                        == Some(l@),
                    ConfigError::MissingValue(f) => {
                        &&& first_bad_in_texts(flag_texts(flags@)) is None
                        &&& first_missing_field(filled) == Some(f)
                    },
                    ConfigError::MissingFlagArgument => false,
                },
            }
        }),
{
    let mut settings = SettingsInitializer { client: None, guild: None, secret: None, token: None };
    let res = handle_flags(flags, &mut settings);
    match res {
        Ok(_) => {}
        Err(e) => {
            return Err(e);
        }
    }
    handle_missing_configvals(&mut settings, client, guild, secret, token);
    settings.finalize()
}

/// Whether the settings pass validity checks; every settings object is
/// currently accepted.
pub fn settings_valid(_settings: &Settings) -> (r: bool)
    ensures
        r == true,
{
    true
}

} // verus!
