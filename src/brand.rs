//! Which terminal emulator hosts the process, and which image protocols it
//! is believed to speak.
use vstd::prelude::*;

use crate::text::{contains_text, same_text, seq_contains};

verus! {

/// A terminal emulator, or an editor that embeds a terminal.
#[derive(Clone, Copy, Debug, PartialEq, Eq, Structural)]
pub enum Brand {
    Kitty,
    Konsole,
    Iterm2,
    WezTerm,
    Foot,
    Ghostty,
    Microsoft,
    Rio,
    BlackBox,
    VSCode,
    Tabby,
    Hyper,
    Mintty,
    Neovim,
    Apple,
    Urxvt,
}

/// An image-display transport.
#[derive(Clone, Copy, Debug, PartialEq, Eq, Structural)]
pub enum Adapter {
    /// Kitty graphics protocol.
    Kgp,
    /// The older Kitty protocol variant, for terminals with partial support.
    KgpOld,
    /// iTerm2 inline images protocol.
    Iip,
    /// Sixel raster graphics.
    Sixel,
}

/// What the static resolver reads from the process environment.
pub struct EnvSnapshot {
    /// Names of the environment variables that are set.
    pub present: Vec<String>,
    /// The terminal type (`$TERM`, or a multiplexer's report of it).
    pub term: String,
    /// The hosting program (`$TERM_PROGRAM`, or a multiplexer's report of it).
    pub program: String,
}

/// Variables whose names belong to a single terminal emulator, in the order
/// in which they are consulted.
pub open spec fn signature_vars() -> Seq<(&'static str, Brand)> {
    seq![
        ("KITTY_WINDOW_ID", Brand::Kitty),
        ("KONSOLE_VERSION", Brand::Konsole),
        ("ITERM_SESSION_ID", Brand::Iterm2),
        ("WEZTERM_EXECUTABLE", Brand::WezTerm),
        ("GHOSTTY_RESOURCES_DIR", Brand::Ghostty),
        ("WT_Session", Brand::Microsoft),
        ("VSCODE_INJECTION", Brand::VSCode),
        ("TABBY_CONFIG_DIRECTORY", Brand::Tabby),
    ]
}

/// Known values of the hosting-program variable.
pub open spec fn program_names() -> Seq<(&'static str, Brand)> {
    seq![
        ("iTerm.app", Brand::Iterm2),
        ("WezTerm", Brand::WezTerm),
        ("ghostty", Brand::Ghostty),
        ("rio", Brand::Rio),
        ("BlackBox", Brand::BlackBox),
        ("vscode", Brand::VSCode),
        ("Tabby", Brand::Tabby),
        ("Hyper", Brand::Hyper),
        ("mintty", Brand::Mintty),
        ("Apple_Terminal", Brand::Apple),
    ]
}

/// Known values of the terminal-type variable.
pub open spec fn term_names() -> Seq<(&'static str, Brand)> {
    seq![
        ("xterm-kitty", Brand::Kitty),
        ("foot", Brand::Foot),
        ("foot-extra", Brand::Foot),
        ("xterm-ghostty", Brand::Ghostty),
        ("rio", Brand::Rio),
        ("rxvt-unicode-256color", Brand::Urxvt),
    ]
}

/// Tokens looked for in a terminal's identification reply, in order.
pub open spec fn reply_tokens() -> Seq<(&'static str, Brand)> {
    seq![
        ("kitty", Brand::Kitty),
        ("Konsole", Brand::Konsole),
        ("iTerm2", Brand::Iterm2),
        ("WezTerm", Brand::WezTerm),
        ("foot", Brand::Foot),
        ("ghostty", Brand::Ghostty),
    ]
}

/// The brand of the first entry whose variable is set in `env`.
pub open spec fn first_present(table: Seq<(&'static str, Brand)>, env: EnvSnapshot) -> Option<Brand>
    decreases table.len(),
{
    if table.len() == 0 {
        None
    } else if env.has(table[0].0@) {
        Some(table[0].1)
    } else {
        first_present(table.drop_first(), env)
    }
}

/// The brand of the first entry whose name equals `v`.
pub open spec fn first_equal(table: Seq<(&'static str, Brand)>, v: Seq<char>) -> Option<Brand>
    decreases table.len(),
{
    if table.len() == 0 {
        None
    } else if table[0].0@ == v {
        Some(table[0].1)
    } else {
        first_equal(table.drop_first(), v)
    }
}

/// The brand of the first entry whose token occurs in `resp`.
pub open spec fn first_contained(table: Seq<(&'static str, Brand)>, resp: Seq<char>) -> Option<Brand>
    decreases table.len(),
{
    if table.len() == 0 {
        None
    } else if seq_contains(resp, table[0].0@) {
        Some(table[0].1)
    } else {
        first_contained(table.drop_first(), resp)
    }
}

/// Both markers of a terminal embedded in Neovim are set.
pub open spec fn embedded_in_nvim(env: EnvSnapshot) -> bool {
    env.has("NVIM_LOG_FILE"@) && env.has("NVIM"@)
}

/// The brand that the environment indicates, tier by tier.
pub open spec fn brand_of_env(env: EnvSnapshot) -> Option<Brand> {
    if embedded_in_nvim(env) {
        Some(Brand::Neovim)
    } else if first_present(signature_vars(), env) is Some {
        first_present(signature_vars(), env)
    } else if first_equal(program_names(), env.program@) is Some {
        first_equal(program_names(), env.program@)
    } else {
        first_equal(term_names(), env.term@)
    }
}

/// The brand that a terminal's identification reply indicates.
pub open spec fn brand_of_reply(resp: Seq<char>) -> Option<Brand> {
    first_contained(reply_tokens(), resp)
}

/// The adapters a brand supports, most preferred first.
pub open spec fn adapters_of(b: Brand) -> Seq<Adapter> {
    match b {
        Brand::Kitty => seq![Adapter::Kgp],
        Brand::Konsole => seq![Adapter::KgpOld],
        Brand::Iterm2 => seq![Adapter::Iip, Adapter::Sixel],
        Brand::WezTerm => seq![Adapter::Iip, Adapter::Sixel],
        Brand::Foot => seq![Adapter::Sixel],
        Brand::Ghostty => seq![Adapter::Kgp],
        Brand::Microsoft => seq![Adapter::Sixel],
        Brand::Rio => seq![Adapter::Iip, Adapter::Sixel],
        Brand::BlackBox => seq![Adapter::Sixel],
        Brand::VSCode => seq![Adapter::Iip, Adapter::Sixel],
        Brand::Tabby => seq![Adapter::Iip, Adapter::Sixel],
        Brand::Hyper => seq![Adapter::Iip, Adapter::Sixel],
        Brand::Mintty => seq![Adapter::Iip],
        Brand::Neovim => seq![],
        Brand::Apple => seq![],
        Brand::Urxvt => seq![],
    }
}

/// Scans `table` for the first entry whose variable is set in `env`.
fn scan_present(table: &[(&'static str, Brand)], env: &EnvSnapshot) -> (r: Option<Brand>)
    ensures
        r == first_present(table@, *env),
{
    let mut i: usize = 0;
    assert(table@.subrange(0, table@.len() as int) =~= table@);
    while i < table.len()
        invariant
            i <= table@.len(),
            first_present(table@, *env) == first_present(table@.subrange(i as int, table@.len() as int), *env),
        decreases table@.len() - i,
    {
        let ghost rest = table@.subrange(i as int, table@.len() as int);
        assert(rest.drop_first() =~= table@.subrange(i + 1, table@.len() as int));
        let (name, brand) = table[i];
        if env.is_set(name) {
            return Some(brand);
        }
        i = i + 1;
    }
    assert(table@.subrange(i as int, table@.len() as int) =~= Seq::empty());
    None
}

/// Scans `table` for the first entry whose name equals `v`.
fn scan_equal(table: &[(&'static str, Brand)], v: &str) -> (r: Option<Brand>)
    ensures
        r == first_equal(table@, v@),
{
    let mut i: usize = 0;
    assert(table@.subrange(0, table@.len() as int) =~= table@);
    while i < table.len()
        invariant
            i <= table@.len(),
            first_equal(table@, v@) == first_equal(table@.subrange(i as int, table@.len() as int), v@),
        decreases table@.len() - i,
    {
        let ghost rest = table@.subrange(i as int, table@.len() as int);
        assert(rest.drop_first() =~= table@.subrange(i + 1, table@.len() as int));
        let (name, brand) = table[i];
        if same_text(name, v) {
            return Some(brand);
        }
        i = i + 1;
    }
    assert(table@.subrange(i as int, table@.len() as int) =~= Seq::empty());
    None
}

/// Scans `table` for the first entry whose token occurs in `resp`.
fn scan_contained(table: &[(&'static str, Brand)], resp: &str) -> (r: Option<Brand>)
    ensures
        r == first_contained(table@, resp@),
{
    let mut i: usize = 0;
    assert(table@.subrange(0, table@.len() as int) =~= table@);
    while i < table.len()
        invariant
            i <= table@.len(),
            first_contained(table@, resp@) == first_contained(table@.subrange(i as int, table@.len() as int), resp@),
        decreases table@.len() - i,
    {
        let ghost rest = table@.subrange(i as int, table@.len() as int);
        assert(rest.drop_first() =~= table@.subrange(i + 1, table@.len() as int));
        let (token, brand) = table[i];
        if contains_text(resp, token) {
            return Some(brand);
        }
        i = i + 1;
    }
    assert(table@.subrange(i as int, table@.len() as int) =~= Seq::empty());
    None
}

impl Brand {
    /// Classifies the terminal from what the environment shows: the Neovim
    /// markers first, then the emulator-specific variables, then the hosting
    /// program, then the terminal type.
    pub fn from_snapshot(env: &EnvSnapshot) -> (r: Option<Brand>)
        ensures
            r == brand_of_env(*env),
            embedded_in_nvim(*env) ==> r == Some(Brand::Neovim),
    {
        if env.is_set("NVIM_LOG_FILE") && env.is_set("NVIM") {
            return Some(Brand::Neovim);
        }
        let vars = [
            ("KITTY_WINDOW_ID", Brand::Kitty),
            ("KONSOLE_VERSION", Brand::Konsole),
            ("ITERM_SESSION_ID", Brand::Iterm2),
            ("WEZTERM_EXECUTABLE", Brand::WezTerm),
            ("GHOSTTY_RESOURCES_DIR", Brand::Ghostty),
            ("WT_Session", Brand::Microsoft),
            ("VSCODE_INJECTION", Brand::VSCode),
            ("TABBY_CONFIG_DIRECTORY", Brand::Tabby),
        ];
        assert(vars@ =~= signature_vars());
        if let Some(b) = scan_present(&vars, env) {
            return Some(b);
        }
        let programs = [
            ("iTerm.app", Brand::Iterm2),
            ("WezTerm", Brand::WezTerm),
            ("ghostty", Brand::Ghostty),
            ("rio", Brand::Rio),
            ("BlackBox", Brand::BlackBox),
            ("vscode", Brand::VSCode),
            ("Tabby", Brand::Tabby),
            ("Hyper", Brand::Hyper),
            ("mintty", Brand::Mintty),
            ("Apple_Terminal", Brand::Apple),
        ];
        assert(programs@ =~= program_names());
        if let Some(b) = scan_equal(&programs, env.program.as_str()) {
            return Some(b);
        }
        let terms = [
            ("xterm-kitty", Brand::Kitty),
            ("foot", Brand::Foot),
            ("foot-extra", Brand::Foot),
            ("xterm-ghostty", Brand::Ghostty),
            ("rio", Brand::Rio),
            ("rxvt-unicode-256color", Brand::Urxvt),
        ];
        assert(terms@ =~= term_names());
        scan_equal(&terms, env.term.as_str())
    }

    /// Classifies the terminal from its reply to an identification query:
    /// the first known token that the reply contains decides.
    pub fn from_csi(resp: &str) -> (r: Option<Brand>)
        ensures
            r == brand_of_reply(resp@),
    {
        let names = [
            ("kitty", Brand::Kitty),
            ("Konsole", Brand::Konsole),
            ("iTerm2", Brand::Iterm2),
            ("WezTerm", Brand::WezTerm),
            ("foot", Brand::Foot),
            ("ghostty", Brand::Ghostty),
        ];
        assert(names@ =~= reply_tokens());
        scan_contained(&names, resp)
    }

    /// The image adapters this terminal supports, most preferred first.
    pub fn adapters(self) -> (r: Vec<Adapter>)
        ensures
            r@ == adapters_of(self),
    {
        let r = match self {
            Brand::Kitty => vec![Adapter::Kgp],
            Brand::Konsole => vec![Adapter::KgpOld],
            Brand::Iterm2 => vec![Adapter::Iip, Adapter::Sixel],
            Brand::WezTerm => vec![Adapter::Iip, Adapter::Sixel],
            Brand::Foot => vec![Adapter::Sixel],
            Brand::Ghostty => vec![Adapter::Kgp],
            Brand::Microsoft => vec![Adapter::Sixel],
            Brand::Rio => vec![Adapter::Iip, Adapter::Sixel],
            Brand::BlackBox => vec![Adapter::Sixel],
            Brand::VSCode => vec![Adapter::Iip, Adapter::Sixel],
            Brand::Tabby => vec![Adapter::Iip, Adapter::Sixel],
            Brand::Hyper => vec![Adapter::Iip, Adapter::Sixel],
            Brand::Mintty => vec![Adapter::Iip],
            Brand::Neovim => vec![],
            Brand::Apple => vec![],
            Brand::Urxvt => vec![],
        };
        assert(r@ =~= adapters_of(self));
        r
    }
}

/// What a value of the override tiers stands for: a multiplexer's report
/// when it has one, else the raw variable, else the empty string.
pub open spec fn preferred(reported: Option<Seq<char>>, raw: Option<Seq<char>>) -> Seq<char> {
    match reported {
        Some(s) => s,
        None => match raw {
            Some(s) => s,
            None => Seq::empty(),
        },
    }
}

/// Picks the value of `$TERM` or `$TERM_PROGRAM` to classify by, preferring
/// a multiplexer's report of the outer terminal to the raw variable.
pub fn prefer_override(reported: Option<String>, raw: Option<String>) -> (r: String)
    ensures
        r@ == preferred(
            match reported { Some(s) => Some(s@), None => None },
            match raw { Some(s) => Some(s@), None => None },
        ),
{
    match reported {
        Some(s) => s,
        None => match raw {
            Some(s) => s,
            None => String::new(),
        },
    }
}

impl EnvSnapshot {
    /// The variable `name` is set.
    pub open spec fn has(self, name: Seq<char>) -> bool {
        exists|i: int| 0 <= i < self.present@.len() && #[trigger] self.present@[i]@ == name
    }

    /// Whether the variable `name` is set.
    pub fn is_set(&self, name: &str) -> (r: bool)
        ensures
            r == self.has(name@),
    {
        let mut i: usize = 0;
        while i < self.present.len()
            invariant
                i <= self.present@.len(),
                forall|j: int| 0 <= j < i ==> #[trigger] self.present@[j]@ != name@,
            decreases self.present@.len() - i,
        {
            if same_text(self.present[i].as_str(), name) {
                return true;
            }
            i = i + 1;
        }
        false
    }
}

} // verus!

verus! {

proof fn lemma_first_present_at(table: Seq<(&'static str, Brand)>, env: EnvSnapshot, i: int)
    requires
        0 <= i < table.len(),
        env.has(table[i].0@),
        forall|j: int| 0 <= j < i ==> !env.has(#[trigger] table[j].0@),
    ensures
        first_present(table, env) == Some(table[i].1),
    decreases i,
{
    if i > 0 {
        assert(!env.has(table[0].0@));
        let rest = table.drop_first();
        assert forall|j: int| 0 <= j < i - 1 implies !env.has(#[trigger] rest[j].0@) by {
            assert(rest[j] == table[j + 1]);
        }
        lemma_first_present_at(rest, env, i - 1);
    }
}

proof fn lemma_first_contained_at(table: Seq<(&'static str, Brand)>, resp: Seq<char>, i: int)
    requires
        0 <= i < table.len(),
        seq_contains(resp, table[i].0@),
        forall|j: int| 0 <= j < i ==> !seq_contains(resp, #[trigger] table[j].0@),
    ensures
        first_contained(table, resp) == Some(table[i].1),
    decreases i,
{
    if i > 0 {
        assert(!seq_contains(resp, table[0].0@));
        let rest = table.drop_first();
        assert forall|j: int| 0 <= j < i - 1 implies !seq_contains(resp, #[trigger] rest[j].0@) by {
            assert(rest[j] == table[j + 1]);
        }
        lemma_first_contained_at(rest, resp, i - 1);
    }
}

proof fn lemma_first_contained_none(table: Seq<(&'static str, Brand)>, resp: Seq<char>)
    requires
        forall|j: int| 0 <= j < table.len() ==> !seq_contains(resp, #[trigger] table[j].0@),
    ensures
        first_contained(table, resp) is None,
    decreases table.len(),
{
    if table.len() > 0 {
        assert(!seq_contains(resp, table[0].0@));
        let rest = table.drop_first();
        assert forall|j: int| 0 <= j < rest.len() implies !seq_contains(resp, #[trigger] rest[j].0@) by {
            assert(rest[j] == table[j + 1]);
        }
        lemma_first_contained_none(rest, resp);
    }
}

proof fn lemma_first_present_none(table: Seq<(&'static str, Brand)>, env: EnvSnapshot)
    requires
        env.present@.len() == 0,
    ensures
        first_present(table, env) is None,
    decreases table.len(),
{
    if table.len() > 0 {
        lemma_first_present_none(table.drop_first(), env);
    }
}

proof fn lemma_first_present_agree(table: Seq<(&'static str, Brand)>, a: EnvSnapshot, b: EnvSnapshot)
    requires
        forall|n: Seq<char>| a.has(n) == b.has(n),
    ensures
        first_present(table, a) == first_present(table, b),
    decreases table.len(),
{
    if table.len() > 0 {
        assert(a.has(table[0].0@) == b.has(table[0].0@));
        lemma_first_present_agree(table.drop_first(), a, b);
    }
}

/// Setting exactly one emulator-specific variable, and nothing else,
/// classifies the terminal as that variable's emulator.
pub proof fn lemma_signature_var_alone(env: EnvSnapshot, i: int)
    requires
        0 <= i < signature_vars().len(),
        env.present@.len() == 1,
        env.present@[0]@ == signature_vars()[i].0@,
    ensures
        brand_of_env(env) == Some(signature_vars()[i].1),
{
    let table = signature_vars();
    reveal_strlit("NVIM_LOG_FILE");
    reveal_strlit("NVIM");
    reveal_strlit("KITTY_WINDOW_ID");
    reveal_strlit("KONSOLE_VERSION");
    reveal_strlit("ITERM_SESSION_ID");
    reveal_strlit("WEZTERM_EXECUTABLE");
    reveal_strlit("GHOSTTY_RESOURCES_DIR");
    reveal_strlit("WT_Session");
    reveal_strlit("VSCODE_INJECTION");
    reveal_strlit("TABBY_CONFIG_DIRECTORY");
    assert(env.has(table[i].0@));
    assert(!env.has("NVIM"@)) by {
        if env.has("NVIM"@) {
            assert(env.present@[0]@ == "NVIM"@);
            assert(table[i].0@.len() != 4);
        }
    }
    assert forall|j: int| 0 <= j < i implies !env.has(#[trigger] table[j].0@) by {
        if env.has(table[j].0@) {
            assert(env.present@[0]@ == table[j].0@);
            assert(table[j].0@.len() != table[i].0@.len() || table[j].0@[1] != table[i].0@[1]);
        }
    }
    lemma_first_present_at(table, env, i);
}

/// In a reply to the identification query, the earliest listed token that
/// occurs decides the brand, whatever else the reply holds.
pub proof fn lemma_reply_first_token(resp: Seq<char>, i: int)
    requires
        0 <= i < reply_tokens().len(),
        seq_contains(resp, reply_tokens()[i].0@),
        forall|j: int| 0 <= j < i ==> !seq_contains(resp, #[trigger] reply_tokens()[j].0@),
    ensures
        brand_of_reply(resp) == Some(reply_tokens()[i].1),
{
    lemma_first_contained_at(reply_tokens(), resp, i);
}

/// A reply that contains "kitty" is Kitty's, whatever other tokens it holds.
pub proof fn lemma_reply_kitty_wins(resp: Seq<char>)
    requires
        seq_contains(resp, "kitty"@),
    ensures
        brand_of_reply(resp) == Some(Brand::Kitty),
{
}

/// A reply that contains none of the known tokens identifies no brand.
pub proof fn lemma_reply_unknown(resp: Seq<char>)
    requires
        forall|j: int| 0 <= j < reply_tokens().len() ==> !seq_contains(resp, #[trigger] reply_tokens()[j].0@),
    ensures
        brand_of_reply(resp) is None,
{
    lemma_first_contained_none(reply_tokens(), resp);
}

/// An environment with no variables set and unknown program and terminal
/// names identifies no brand.
pub proof fn lemma_env_unknown(env: EnvSnapshot)
    requires
        env.present@.len() == 0,
        first_equal(program_names(), env.program@) is None,
        first_equal(term_names(), env.term@) is None,
    ensures
        brand_of_env(env) is None,
{
    lemma_first_present_none(signature_vars(), env);
}

/// The capability table is a fixed function of the brand: equal brands give
/// the same ordered adapters, and exactly the Neovim-embedded, Apple and
/// urxvt terminals have none.
pub proof fn lemma_adapters_fixed(a: Brand, b: Brand)
    requires
        a == b,
    ensures
        adapters_of(a) == adapters_of(b),
        adapters_of(a).len() == 0 <==> (a == Brand::Neovim || a == Brand::Apple || a == Brand::Urxvt),
{
}

/// Resolution depends on the environment alone: two snapshots that set the
/// same variables and report the same program and terminal classify alike.
pub proof fn lemma_resolution_repeatable(a: EnvSnapshot, b: EnvSnapshot)
    requires
        forall|n: Seq<char>| a.has(n) == b.has(n),
        a.program@ == b.program@,
        a.term@ == b.term@,
    ensures
        brand_of_env(a) == brand_of_env(b),
{
    lemma_first_present_agree(signature_vars(), a, b);
    assert(a.has("NVIM"@) == b.has("NVIM"@));
    assert(a.has("NVIM_LOG_FILE"@) == b.has("NVIM_LOG_FILE"@));
}

} // verus!
