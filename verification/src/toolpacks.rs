//! Per-tool recipes: how to fetch help for a tool, how to fetch help for its
//! subcommands, and where to discover further navigable items.  Loading the
//! recipe catalog from disk happens outside; this module owns the lookup and
//! the parsing of discovery output.
use vstd::prelude::*;

use crate::fetcher::{ProcessOutput, ProcessOutputView};
use crate::rx::{rx_captures, rx_captures12, rx_check, rx_is_match, rx_matches, rx_valid};
use crate::text::{
    chars_split_lines, chars_to_string, chars_trim, split_lines_spec, str_eq, str_to_chars,
    trim_spec,
};

verus! {

/// One discovery recipe: run a command, optionally skip to a section, then
/// extract `(name, description)` pairs with a regular expression.
pub struct DiscoverySource {
    /// Category shown beside discovered items (e.g. "Guides").
    pub label: String,
    /// Command template to run, with `{base}` standing for the base command.
    pub run: String,
    /// Entry pattern: group 1 is the name, group 2 (if present) the description.
    pub pattern: String,
    /// Invoke template for drilling into a discovered item, with `{base}` and `{name}`.
    pub invoke: String,
    /// Optional filter: ignore lines until one matches this pattern.
    pub section: Option<String>,
}

#[verifier::ext_equal]
pub ghost struct DiscoverySourceView {
    pub label: Seq<char>,
    pub run: Seq<char>,
    pub pattern: Seq<char>,
    pub invoke: Seq<char>,
    pub section: Option<Seq<char>>,
}

impl View for DiscoverySource {
    type V = DiscoverySourceView;

    open spec fn view(&self) -> DiscoverySourceView {
        DiscoverySourceView {
            label: self.label@,
            run: self.run@,
            pattern: self.pattern@,
            invoke: self.invoke@,
            section: self.section.deep_view(),
        }
    }
}

impl DeepView for DiscoverySource {
    type V = DiscoverySourceView;

    open spec fn deep_view(&self) -> DiscoverySourceView {
        self.view()
    }
}

/// An item a discovery source produced.
pub struct DiscoveredItem {
    pub name: String,
    pub description: Option<String>,
    pub label: String,
    pub invoke_template: String,
}

#[verifier::ext_equal]
pub ghost struct DiscoveredItemView {
    pub name: Seq<char>,
    pub description: Option<Seq<char>>,
    pub label: Seq<char>,
    pub invoke_template: Seq<char>,
}

impl View for DiscoveredItem {
    type V = DiscoveredItemView;

    open spec fn view(&self) -> DiscoveredItemView {
        DiscoveredItemView {
            name: self.name@,
            description: self.description.deep_view(),
            label: self.label@,
            invoke_template: self.invoke_template@,
        }
    }
}

impl DeepView for DiscoveredItem {
    type V = DiscoveredItemView;

    open spec fn deep_view(&self) -> DiscoveredItemView {
        self.view()
    }
}

/// The recipes for one tool.
pub struct ToolPack {
    /// Commands to try for base help.
    pub help: Vec<String>,
    /// Commands to try for subcommand help, using `{base}` and `{sub}`.
    pub subcommand: Vec<String>,
    /// Additional discovery sources.
    pub discover: Vec<DiscoverySource>,
}

/// A named recipe bundle in the catalog.
pub struct ToolPackEntry {
    pub name: String,
    pub pack: ToolPack,
}

/// The catalog of per-tool recipes, keyed by tool name (first entry wins).
pub struct ToolPacks {
    pub tools: Vec<ToolPackEntry>,
}

/// The first catalog entry named `name`, if any.
pub open spec fn find_pack(tools: Seq<ToolPackEntry>, name: Seq<char>) -> Option<int>
    decreases tools.len(),
{
    if tools.len() == 0 {
        None
    } else if tools[0].name@ == name {
        Some(0)
    } else {
        match find_pack(tools.drop_first(), name) {
            Some(i) => Some(i + 1),
            None => None,
        }
    }
}

impl ToolPacks {
    pub fn new() -> (r: ToolPacks)
        ensures
            r.tools@.len() == 0,
    {
        ToolPacks { tools: Vec::new() }
    }

    pub fn get(&self, tool: &str) -> (r: Option<&ToolPack>)
        ensures
            match r {
                Some(p) => {
                    &&& find_pack(self.tools@, tool@) matches Some(i)
                    &&& 0 <= i < self.tools@.len()
                    &&& *p == self.tools@[find_pack(self.tools@, tool@)->0].pack
                },
                None => find_pack(self.tools@, tool@) is None,
            },
    {
        let mut i: usize = 0;
        proof {
            assert(self.tools@.skip(0) =~= self.tools@);
        }
        while i < self.tools.len()
            invariant
                0 <= i <= self.tools@.len(),
                forall|j: int| 0 <= j < i ==> self.tools@[j].name@ != tool@,
                find_pack(self.tools@, tool@) == match find_pack(
                    self.tools@.skip(i as int),
                    tool@,
                ) {
                    Some(k) => Some(k + i),
                    None => None::<int>,
                },
            decreases self.tools@.len() - i,
        {
            proof {
                assert(self.tools@.skip(i as int)[0] == self.tools@[i as int]);
                assert(self.tools@.skip(i as int).drop_first() =~= self.tools@.skip(i + 1));
            }
            if str_eq(self.tools[i].name.as_str(), tool) {
                return Some(&self.tools[i].pack);
            }
            i += 1;
        }
        proof {
            assert(self.tools@.skip(i as int) =~= Seq::<ToolPackEntry>::empty());
        }
        None
    }
}

/// The help templates a pack offers for base help: its own list, or the
/// generic fallback when the list is empty.
pub open spec fn spec_help_commands(pack: &ToolPack) -> Seq<Seq<char>> {
    if pack.help@.len() == 0 {
        seq!["{cmd} --help"@, "{cmd} -h"@]
    } else {
        pack.help.deep_view()
    }
}

/// The templates a pack offers for subcommand help.
pub open spec fn spec_subcommand_commands(pack: &ToolPack) -> Seq<Seq<char>> {
    if pack.subcommand@.len() == 0 {
        seq!["{cmd} --help"@, "{base} help {sub}"@]
    } else {
        pack.subcommand.deep_view()
    }
}

impl ToolPack {
    pub fn get_help_commands(&self) -> (r: Vec<String>)
        ensures
            r.deep_view() == spec_help_commands(self),
    {
        if self.help.len() == 0 {
            let mut v: Vec<String> = Vec::new();
            v.push("{cmd} --help".to_owned());
            v.push("{cmd} -h".to_owned());
            proof {
                assert(v.deep_view() =~~= spec_help_commands(self));
            }
            v
        } else {
            let r = clone_strings(&self.help);
            proof {
                assert(r.deep_view() =~~= spec_help_commands(self));
            }
            r
        }
    }

    pub fn get_subcommand_commands(&self) -> (r: Vec<String>)
        ensures
            r.deep_view() == spec_subcommand_commands(self),
    {
        if self.subcommand.len() == 0 {
            let mut v: Vec<String> = Vec::new();
            v.push("{cmd} --help".to_owned());
            v.push("{base} help {sub}".to_owned());
            proof {
                assert(v.deep_view() =~~= spec_subcommand_commands(self));
            }
            v
        } else {
            let r = clone_strings(&self.subcommand);
            proof {
                assert(r.deep_view() =~~= spec_subcommand_commands(self));
            }
            r
        }
    }

    /// Items from all discovery sources, given one captured output per
    /// source, merged in source order.
    pub fn discover_items(&self, outputs: &Vec<ProcessOutput>) -> (r: Vec<DiscoveredItem>)
        ensures
            r.deep_view() == spec_discover_all(
                self.discover.deep_view(),
                outputs.deep_view(),
            ),
    {
        let mut r: Vec<DiscoveredItem> = Vec::new();
        let n = if self.discover.len() < outputs.len() {
            self.discover.len()
        } else {
            outputs.len()
        };
        let mut i: usize = 0;
        while i < n
            invariant
                0 <= i <= n,
                n == vstd::math::min(self.discover.deep_view().len() as int, outputs.deep_view().len() as int),
                r.deep_view() =~~= spec_discover_all(
                    self.discover.deep_view().take(i as int),
                    outputs.deep_view().take(i as int),
                ),
            decreases n - i,
        {
            let mut items = self.discover[i].run_discovery(&outputs[i]);
            let ghost prev = r.deep_view();
            r.append(&mut items);
            proof {
                assert(self.discover.deep_view().take(i + 1).drop_last() =~~= self
                    .discover
                    .deep_view()
                    .take(i as int));
                assert(outputs.deep_view().take(i + 1).drop_last() =~~= outputs
                    .deep_view()
                    .take(i as int));
                assert(r.deep_view() =~~= spec_discover_all(
                    self.discover.deep_view().take(i + 1),
                    outputs.deep_view().take(i + 1),
                ));
            }
            i += 1;
        }
        proof {
            if self.discover.deep_view().len() <= outputs.deep_view().len() {
                assert(self.discover.deep_view().take(n as int) =~~= self.discover.deep_view());
                lemma_discover_all_prefix(
                    self.discover.deep_view(),
                    outputs.deep_view().take(n as int),
                    outputs.deep_view(),
                );
            } else {
                assert(outputs.deep_view().take(n as int) =~~= outputs.deep_view());
                lemma_discover_all_excess_sources(
                    self.discover.deep_view().take(n as int),
                    self.discover.deep_view(),
                    outputs.deep_view(),
                );
            }
        }
        r
    }
}

/// Items of the source/output pairs, paired by index, in order; an unpaired
/// tail on either side contributes nothing.
pub open spec fn spec_discover_all(
    sources: Seq<DiscoverySourceView>,
    outs: Seq<ProcessOutputView>,
) -> Seq<DiscoveredItemView>
    decreases sources.len(), outs.len(),
{
    if sources.len() == 0 || outs.len() == 0 {
        Seq::empty()
    } else if sources.len() > outs.len() {
        spec_discover_all(sources.drop_last(), outs)
    } else if outs.len() > sources.len() {
        spec_discover_all(sources, outs.drop_last())
    } else {
        spec_discover_all(sources.drop_last(), outs.drop_last()) + spec_discovery_items(
            sources.last(),
            outs.last(),
        )
    }
}

proof fn lemma_discover_all_prefix(
    sources: Seq<DiscoverySourceView>,
    outs1: Seq<ProcessOutputView>,
    outs2: Seq<ProcessOutputView>,
)
    requires
        sources.len() <= outs1.len() <= outs2.len(),
        outs1 == outs2.take(outs1.len() as int),
    ensures
        spec_discover_all(sources, outs1) == spec_discover_all(sources, outs2),
    decreases outs2.len() - outs1.len(),
{
    if outs1.len() < outs2.len() {
        assert(outs2.drop_last().take(outs1.len() as int) =~~= outs1);
        lemma_discover_all_prefix(sources, outs1, outs2.drop_last());
        if sources.len() > 0 {
        }
    } else {
        assert(outs1 =~~= outs2);
    }
}

proof fn lemma_discover_all_excess_sources(
    sources1: Seq<DiscoverySourceView>,
    sources2: Seq<DiscoverySourceView>,
    outs: Seq<ProcessOutputView>,
)
    requires
        outs.len() <= sources1.len() <= sources2.len(),
        sources1 == sources2.take(sources1.len() as int),
    ensures
        spec_discover_all(sources1, outs) == spec_discover_all(sources2, outs),
    decreases sources2.len() - sources1.len(),
{
    if sources1.len() < sources2.len() {
        assert(sources2.drop_last().take(sources1.len() as int) =~~= sources1);
        lemma_discover_all_excess_sources(sources1, sources2.drop_last(), outs);
    } else {
        assert(sources1 =~~= sources2);
    }
}

/// Whether the source's section filter is active: a section pattern is
/// present and compiles.  An absent or invalid section pattern means every
/// line is eligible from the start.
pub open spec fn disc_section_filter(src: DiscoverySourceView) -> bool {
    match src.section {
        Some(s) => rx_valid(s),
        None => false,
    }
}

/// One discovered item from one line, when the entry pattern yields a name
/// that does not look like a flag.
pub open spec fn disc_line_item(src: DiscoverySourceView, line: Seq<char>) -> Option<
    DiscoveredItemView,
> {
    match rx_captures12(src.pattern, line) {
        Some(g) => {
            if g.0.len() > 0 && g.0[0] == '-' {
                None
            } else {
                Some(
                    DiscoveredItemView {
                        name: g.0,
                        description: match g.1 {
                            Some(d) => Some(trim_spec(d)),
                            None => None,
                        },
                        label: src.label,
                        invoke_template: src.invoke,
                    },
                )
            }
        },
        None => None,
    }
}

/// The line scan of one captured listing: a section-header match arms the
/// scan, and entry-pattern matches on armed lines yield items.
pub open spec fn disc_fold(src: DiscoverySourceView, lines: Seq<Seq<char>>) -> (
    Seq<DiscoveredItemView>,
    bool,
)
    decreases lines.len(),
{
    if lines.len() == 0 {
        (Seq::empty(), !disc_section_filter(src))
    } else {
        let st = disc_fold(src, lines.drop_last());
        let line = lines.last();
        if disc_section_filter(src) && rx_matches(src.section->0, line) {
            (st.0, true)
        } else if !st.1 {
            st
        } else {
            match disc_line_item(src, line) {
                Some(item) => (st.0.push(item), st.1),
                None => st,
            }
        }
    }
}

/// What one discovery source extracts from one captured output: nothing on a
/// failed run or an invalid entry pattern, the filtered line scan otherwise.
pub open spec fn spec_discovery_items(
    src: DiscoverySourceView,
    out: ProcessOutputView,
) -> Seq<DiscoveredItemView> {
    if !out.success || !rx_valid(src.pattern) {
        Seq::empty()
    } else {
        disc_fold(src, split_lines_spec(out.stdout)).0
    }
}

impl DiscoverySource {
    /// Extracts this source's items from the captured output of its `run`
    /// command.
    #[verifier::loop_isolation(false)]
    pub fn run_discovery(&self, output: &ProcessOutput) -> (r: Vec<DiscoveredItem>)
        ensures
            r.deep_view() == spec_discovery_items(self@, output@),
    {
        let mut r: Vec<DiscoveredItem> = Vec::new();
        if !output.success {
            return r;
        }
        if !rx_check(self.pattern.as_str()) {
            return r;
        }
        let armed_filter = match &self.section {
            Some(s) => rx_check(s.as_str()),
            None => false,
        };
        let text = str_to_chars(output.stdout.as_str());
        let lines = chars_split_lines(&text);
        let ghost lines_v = split_lines_spec(output.stdout@);
        let mut in_section = !armed_filter;
        let mut i: usize = 0;
        while i < lines.len()
            invariant
                0 <= i <= lines@.len(),
                lines.deep_view() == lines_v,
                lines@.len() == lines_v.len(),
                armed_filter == disc_section_filter(self@),
                rx_valid(self@.pattern),
                r.deep_view() =~~= disc_fold(self@, lines_v.take(i as int)).0,
                in_section == disc_fold(self@, lines_v.take(i as int)).1,
            decreases lines@.len() - i,
        {
            proof {
                assert(lines_v.take(i + 1).drop_last() =~~= lines_v.take(i as int));
                assert(lines_v.take(i + 1).last() == lines_v[i as int]);
                assert(lines.deep_view()[i as int] == lines@[i as int]@);
            }
            let line = chars_to_string(&lines[i]);
            let mut handled = false;
            if armed_filter {
                if let Some(s) = &self.section {
                    if rx_is_match(s.as_str(), line.as_str()) {
                        in_section = true;
                        handled = true;
                    }
                }
            }
            if !handled && in_section {
                match rx_captures(self.pattern.as_str(), line.as_str()) {
                    Some(g) => {
                        let (name, desc) = g;
                        let name_chars = str_to_chars(name.as_str());
                        let is_flag = name_chars.len() > 0 && name_chars[0] == '-';
                        if !is_flag {
                            let description = match desc {
                                Some(d) => {
                                    let dc = str_to_chars(d.as_str());
                                    let t = chars_trim(&dc);
                                    Some(chars_to_string(&t))
                                },
                                None => None,
                            };
                            let item = DiscoveredItem {
                                name,
                                description,
                                label: self.label.clone(),
                                invoke_template: self.invoke.clone(),
                            };
                            r.push(item);
                        }
                    },
                    None => {},
                }
            }
            proof {
                assert(r.deep_view() =~~= disc_fold(self@, lines_v.take(i + 1)).0);
                assert(in_section == disc_fold(self@, lines_v.take(i + 1)).1);
            }
            i += 1;
        }
        proof {
            assert(lines_v.take(lines_v.len() as int) =~~= lines_v);
        }
        r
    }
}

/// An element-wise copy of a vector of strings.
pub fn clone_strings(v: &Vec<String>) -> (r: Vec<String>)
    ensures
        r@ == v@,
{
    let mut r: Vec<String> = Vec::new();
    let mut i: usize = 0;
    while i < v.len()
        invariant
            0 <= i <= v@.len(),
            r@ =~= v@.take(i as int),
        decreases v@.len() - i,
    {
        r.push(v[i].clone());
        i += 1;
    }
    proof {
        assert(v@.take(v@.len() as int) =~= v@);
    }
    r
}

} // verus!
