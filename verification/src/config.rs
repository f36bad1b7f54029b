//! Configuration: per-tool help-template overrides, the ordered list of
//! section/entry patterns the parser tries first, and the key-binding table.
//! Reading the configuration file from disk happens outside; defaults and
//! lookup rules live here.
use vstd::prelude::*;

use crate::toolpacks::{find_pack, spec_help_commands, spec_subcommand_commands, ToolPacks};
use crate::text::str_eq;

verus! {

/// A per-tool override from the main configuration file.
pub struct ToolConfig {
    pub help_flags: Vec<String>,
}

/// A named per-tool override; first entry with a name wins.
pub struct ToolEntry {
    pub name: String,
    pub config: ToolConfig,
}

/// One parser layer: a section-header pattern and an entry pattern whose
/// group 1 is the name and group 2 the description.
pub struct SubcommandPattern {
    pub section: String,
    pub entry: String,
}

#[verifier::ext_equal]
pub ghost struct SubcommandPatternView {
    pub section: Seq<char>,
    pub entry: Seq<char>,
}

impl View for SubcommandPattern {
    type V = SubcommandPatternView;

    open spec fn view(&self) -> SubcommandPatternView {
        SubcommandPatternView { section: self.section@, entry: self.entry@ }
    }
}

impl DeepView for SubcommandPattern {
    type V = SubcommandPatternView;

    open spec fn deep_view(&self) -> SubcommandPatternView {
        self.view()
    }
}

/// The key-binding table: each action maps to the list of key names bound to
/// it.
pub struct KeyConfig {
    pub quit: Vec<String>,
    pub scroll_up: Vec<String>,
    pub scroll_down: Vec<String>,
    pub half_page_up: Vec<String>,
    pub half_page_down: Vec<String>,
    pub page_up: Vec<String>,
    pub page_down: Vec<String>,
    pub top: Vec<String>,
    pub bottom: Vec<String>,
    pub search: Vec<String>,
    pub next_match: Vec<String>,
    pub prev_match: Vec<String>,
    pub find_subcommand: Vec<String>,
    pub open_command: Vec<String>,
    pub back: Vec<String>,
    pub help: Vec<String>,
}

pub open spec fn key_config_empty(k: &KeyConfig) -> bool {
    &&& k.quit@.len() == 0
    &&& k.scroll_up@.len() == 0
    &&& k.scroll_down@.len() == 0
    &&& k.half_page_up@.len() == 0
    &&& k.half_page_down@.len() == 0
    &&& k.page_up@.len() == 0
    &&& k.page_down@.len() == 0
    &&& k.top@.len() == 0
    &&& k.bottom@.len() == 0
    &&& k.search@.len() == 0
    &&& k.next_match@.len() == 0
    &&& k.prev_match@.len() == 0
    &&& k.find_subcommand@.len() == 0
    &&& k.open_command@.len() == 0
    &&& k.back@.len() == 0
    &&& k.help@.len() == 0
}

impl Default for KeyConfig {
    fn default() -> (k: KeyConfig)
        ensures
            key_config_empty(&k),
    {
        KeyConfig {
            quit: Vec::new(),
            scroll_up: Vec::new(),
            scroll_down: Vec::new(),
            half_page_up: Vec::new(),
            half_page_down: Vec::new(),
            page_up: Vec::new(),
            page_down: Vec::new(),
            top: Vec::new(),
            bottom: Vec::new(),
            search: Vec::new(),
            next_match: Vec::new(),
            prev_match: Vec::new(),
            find_subcommand: Vec::new(),
            open_command: Vec::new(),
            back: Vec::new(),
            help: Vec::new(),
        }
    }
}

/// What each binding list is when the user left it empty.
pub open spec fn default_binding(old_list: Seq<Seq<char>>, dflt: Seq<Seq<char>>) -> Seq<
    Seq<char>,
> {
    if old_list.len() == 0 {
        dflt
    } else {
        old_list
    }
}

impl KeyConfig {
    /// Fills every binding list the user left empty with its vim-style
    /// default, and leaves user-set lists untouched.
    #[verifier::rlimit(100)]
    pub fn apply_defaults(&mut self)
        ensures
            final(self).quit.deep_view() == default_binding(
                old(self).quit.deep_view(),
                seq!["q"@, "Escape"@],
            ),
            final(self).scroll_up.deep_view() == default_binding(
                old(self).scroll_up.deep_view(),
                seq!["k"@, "Up"@],
            ),
            final(self).scroll_down.deep_view() == default_binding(
                old(self).scroll_down.deep_view(),
                seq!["j"@, "Down"@],
            ),
            final(self).half_page_up.deep_view() == default_binding(
                old(self).half_page_up.deep_view(),
                seq!["Ctrl-u"@, "u"@],
            ),
            final(self).half_page_down.deep_view() == default_binding(
                old(self).half_page_down.deep_view(),
                seq!["Ctrl-d"@, "d"@],
            ),
            final(self).page_up.deep_view() == default_binding(
                old(self).page_up.deep_view(),
                seq!["Ctrl-b"@, "b"@],
            ),
            final(self).page_down.deep_view() == default_binding(
                old(self).page_down.deep_view(),
                seq!["Ctrl-f"@, "Space"@],
            ),
            final(self).top.deep_view() == default_binding(
                old(self).top.deep_view(),
                seq!["gg"@, "Home"@],
            ),
            final(self).bottom.deep_view() == default_binding(
                old(self).bottom.deep_view(),
                seq!["G"@, "End"@],
            ),
            final(self).search.deep_view() == default_binding(
                old(self).search.deep_view(),
                seq!["/"@],
            ),
            final(self).next_match.deep_view() == default_binding(
                old(self).next_match.deep_view(),
                seq!["n"@],
            ),
            final(self).prev_match.deep_view() == default_binding(
                old(self).prev_match.deep_view(),
                seq!["N"@],
            ),
            final(self).find_subcommand.deep_view() == default_binding(
                old(self).find_subcommand.deep_view(),
                seq!["f"@],
            ),
            final(self).open_command.deep_view() == default_binding(
                old(self).open_command.deep_view(),
                seq!["o"@],
            ),
            final(self).back.deep_view() == default_binding(
                old(self).back.deep_view(),
                seq!["Backspace"@],
            ),
            final(self).help.deep_view() == default_binding(
                old(self).help.deep_view(),
                seq!["?"@],
            ),
    {
        fill_two(&mut self.quit, "q", "Escape");
        fill_two(&mut self.scroll_up, "k", "Up");
        fill_two(&mut self.scroll_down, "j", "Down");
        fill_two(&mut self.half_page_up, "Ctrl-u", "u");
        fill_two(&mut self.half_page_down, "Ctrl-d", "d");
        fill_two(&mut self.page_up, "Ctrl-b", "b");
        fill_two(&mut self.page_down, "Ctrl-f", "Space");
        fill_two(&mut self.top, "gg", "Home");
        fill_two(&mut self.bottom, "G", "End");
        fill_one(&mut self.search, "/");
        fill_one(&mut self.next_match, "n");
        fill_one(&mut self.prev_match, "N");
        fill_one(&mut self.find_subcommand, "f");
        fill_one(&mut self.open_command, "o");
        fill_one(&mut self.back, "Backspace");
        fill_one(&mut self.help, "?");
    }
}

fn fill_one(list: &mut Vec<String>, a: &str)
    ensures
        final(list).deep_view() == default_binding(old(list).deep_view(), seq![a@]),
{
    if list.len() == 0 {
        *list = one_string(a);
    }
}

fn fill_two(list: &mut Vec<String>, a: &str, b: &str)
    ensures
        final(list).deep_view() == default_binding(old(list).deep_view(), seq![a@, b@]),
{
    if list.len() == 0 {
        *list = two_strings(a, b);
    }
}

fn one_string(a: &str) -> (r: Vec<String>)
    ensures
        r.deep_view() =~~= seq![a@],
{
    let mut v: Vec<String> = Vec::new();
    v.push(a.to_owned());
    v
}

fn two_strings(a: &str, b: &str) -> (r: Vec<String>)
    ensures
        r.deep_view() =~~= seq![a@, b@],
{
    let mut v: Vec<String> = Vec::new();
    v.push(a.to_owned());
    v.push(b.to_owned());
    v
}

/// The whole configuration as the core sees it.
pub struct Config {
    pub tools: Vec<ToolEntry>,
    pub subcommand_patterns: Vec<SubcommandPattern>,
    pub keys: KeyConfig,
    pub toolpacks: ToolPacks,
}

/// The first per-tool override named `name`, if any.
pub open spec fn find_tool(tools: Seq<ToolEntry>, name: Seq<char>) -> Option<int>
    decreases tools.len(),
{
    if tools.len() == 0 {
        None
    } else if tools[0].name@ == name {
        Some(0)
    } else {
        match find_tool(tools.drop_first(), name) {
            Some(i) => Some(i + 1),
            None => None,
        }
    }
}

/// The built-in section/entry pattern pairs, in the order they are tried.
pub open spec fn default_patterns_view() -> Seq<SubcommandPatternView> {
    seq![
        SubcommandPatternView {
            section: "(?im)^(commands?|subcommands?|available\\s+commands?):?\\s*$"@,
            entry: "^\\s{2,4}([\\w][\\w-]*)\\s+(.*)$"@,
        },
        SubcommandPatternView {
            section: "(?im)^(usage|options):?\\s*$"@,
            entry: "^\\s{2,4}([\\w][\\w-]*)\\s{2,}(.*)$"@,
        },
        SubcommandPatternView {
            section: "(?i)^\\w+\\s+COMMANDS?\\s*$"@,
            entry: "^\\s{2}([\\w][\\w-]*):\\s+(.*)$"@,
        },
    ]
}

/// The help templates used for a base command: the user's per-tool override,
/// else the tool pack's, else the generic fallback.
pub open spec fn spec_help_flags(c: &Config, tool: Seq<char>) -> Seq<Seq<char>> {
    match find_tool(c.tools@, tool) {
        Some(i) => c.tools@[i].config.help_flags.deep_view(),
        None => match find_pack(c.toolpacks.tools@, tool) {
            Some(j) => spec_help_commands(&c.toolpacks.tools@[j].pack),
            None => seq!["{cmd} --help"@, "{cmd} -h"@],
        },
    }
}

/// The help templates used for a subcommand path: the tool pack's, else the
/// generic fallback.
pub open spec fn spec_subcommand_help_flags(c: &Config, tool: Seq<char>) -> Seq<Seq<char>> {
    match find_pack(c.toolpacks.tools@, tool) {
        Some(j) => spec_subcommand_commands(&c.toolpacks.tools@[j].pack),
        None => seq!["{cmd} --help"@, "{base} help {sub}"@, "{cmd} -h"@],
    }
}

impl Default for Config {
    fn default() -> (c: Config)
        ensures
            c.tools@.len() == 0,
            c.subcommand_patterns@.len() == 0,
            key_config_empty(&c.keys),
            c.toolpacks.tools@.len() == 0,
    {
        Config {
            tools: Vec::new(),
            subcommand_patterns: Vec::new(),
            keys: KeyConfig::default(),
            toolpacks: ToolPacks::new(),
        }
    }
}

impl Config {
    /// The built-in section/entry pattern pairs.
    pub fn default_subcommand_patterns() -> (r: Vec<SubcommandPattern>)
        ensures
            r.deep_view() == default_patterns_view(),
    {
        let mut v: Vec<SubcommandPattern> = Vec::new();
        v.push(
            SubcommandPattern {
                section: "(?im)^(commands?|subcommands?|available\\s+commands?):?\\s*$".to_owned(),
                entry: "^\\s{2,4}([\\w][\\w-]*)\\s+(.*)$".to_owned(),
            },
        );
        v.push(
            SubcommandPattern {
                section: "(?im)^(usage|options):?\\s*$".to_owned(),
                entry: "^\\s{2,4}([\\w][\\w-]*)\\s{2,}(.*)$".to_owned(),
            },
        );
        v.push(
            SubcommandPattern {
                section: "(?i)^\\w+\\s+COMMANDS?\\s*$".to_owned(),
                entry: "^\\s{2}([\\w][\\w-]*):\\s+(.*)$".to_owned(),
            },
        );
        proof {
            assert(v.deep_view() =~~= default_patterns_view());
        }
        v
    }

    /// Fills defaults into whatever the configuration file left unset.
    pub fn apply_defaults(&mut self)
        ensures
            old(self).subcommand_patterns@.len() == 0 ==> final(self).subcommand_patterns.deep_view()
                == default_patterns_view(),
            old(self).subcommand_patterns@.len() > 0 ==> final(self).subcommand_patterns
                == old(self).subcommand_patterns,
            final(self).tools == old(self).tools,
            final(self).toolpacks == old(self).toolpacks,
    {
        if self.subcommand_patterns.len() == 0 {
            self.subcommand_patterns = Self::default_subcommand_patterns();
        }
        self.keys.apply_defaults();
    }

    /// The configuration used when no configuration file exists.
    pub fn default_config() -> (c: Config)
        ensures
            c.tools@.len() == 0,
            c.subcommand_patterns.deep_view() == default_patterns_view(),
            c.toolpacks.tools@.len() == 0,
    {
        let mut c = Config::default();
        c.apply_defaults();
        c
    }

    /// Help templates for fetching a base command's help.
    pub fn get_help_flags(&self, tool: &str) -> (r: Vec<String>)
        ensures
            r.deep_view() == spec_help_flags(self, tool@),
    {
        let mut i: usize = 0;
        proof {
            assert(self.tools@.skip(0) =~= self.tools@);
        }
        while i < self.tools.len()
            invariant
                0 <= i <= self.tools@.len(),
                find_tool(self.tools@, tool@) == match find_tool(
                    self.tools@.skip(i as int),
                    tool@,
                ) {
                    Some(k) => Some(k + i),
                    None => None::<int>,
                },
            decreases self.tools@.len() - i,
        {
            proof {
                assert(self.tools@.skip(i as int)[0] == self.tools@[i as int]);
                assert(self.tools@.skip(i as int).drop_first() =~= self.tools@.skip(i + 1));
            }
            if str_eq(self.tools[i].name.as_str(), tool) {
                return crate::toolpacks::clone_strings(&self.tools[i].config.help_flags);
            }
            i += 1;
        }
        proof {
            assert(self.tools@.skip(i as int) =~= Seq::<ToolEntry>::empty());
        }
        match self.toolpacks.get(tool) {
            Some(pack) => pack.get_help_commands(),
            None => {
                let mut v: Vec<String> = Vec::new();
                v.push("{cmd} --help".to_owned());
                v.push("{cmd} -h".to_owned());
                proof {
                    assert(v.deep_view() =~~= spec_help_flags(self, tool@));
                }
                v
            },
        }
    }

    /// Help templates for fetching a subcommand's help.
    pub fn get_subcommand_help_flags(&self, tool: &str) -> (r: Vec<String>)
        ensures
            r.deep_view() == spec_subcommand_help_flags(self, tool@),
    {
        match self.toolpacks.get(tool) {
            Some(pack) => pack.get_subcommand_commands(),
            None => {
                let mut v: Vec<String> = Vec::new();
                v.push("{cmd} --help".to_owned());
                v.push("{base} help {sub}".to_owned());
                v.push("{cmd} -h".to_owned());
                proof {
                    assert(v.deep_view() =~~= spec_subcommand_help_flags(self, tool@));
                }
                v
            },
        }
    }
}

} // verus!
