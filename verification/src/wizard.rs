//! The interactive setup as a state machine: each answer line moves the
//! wizard to its next question and says what is shown.

use vstd::prelude::*;
use vstd::string::StringExecFns;

use crate::config::{
    entries_view, AppConfig, CascadeConfig, CascadeEntry, CascadeEntryV, DatabaseConfig,
    FailureConfig, ProviderConfig, ProviderConfigV, ProviderType, default_db_path_spec,
    default_failure_dir_spec,
};
use crate::named_map::NamedMap;
use crate::setup::{
    all_presets_spec, cascade_entry_step, cascade_name_step, cfgv, choices, custom_env_var_spec,
    custom_provider, custom_provider_name, index_of, insert_all, is_yes, names_insert_all, picked,
    select_providers, unknown_choices, CascadeNameStep, EntryStep,
};
use crate::text::{join, lowercase, seq_join, trim, views};

verus! {

/// Where a line of the wizard goes.
#[derive(Clone, Copy, Debug, PartialEq, Eq, Structural)]
pub enum Stream {
    /// Standard output.
    Output,
    /// Standard error.
    Error,
}

/// The question the wizard is at.
pub enum WizardStage {
    /// Which menu providers to configure.
    Providers,
    /// Whether to add a custom provider.
    AskCustom,
    /// The name of the custom provider.
    CustomName,
    /// The base URL of the custom provider with this name.
    CustomUrl(String),
    /// The name of the next cascade.
    CascadeName,
    /// The next entry of the cascade with this name; the entries so far.
    Entries(String, Vec<CascadeEntry>),
    /// Finished: the configuration can be written.
    Done,
    /// Stopped without any provider.
    Aborted,
}

/// The model of a [`WizardStage`].
pub enum WizardStageV {
    Providers,
    AskCustom,
    CustomName,
    CustomUrl(Seq<char>),
    CascadeName,
    Entries(Seq<char>, Seq<CascadeEntryV>),
    Done,
    Aborted,
}

impl View for WizardStage {
    type V = WizardStageV;

    open spec fn view(&self) -> WizardStageV {
        match self {
            WizardStage::Providers => WizardStageV::Providers,
            WizardStage::AskCustom => WizardStageV::AskCustom,
            WizardStage::CustomName => WizardStageV::CustomName,
            WizardStage::CustomUrl(n) => WizardStageV::CustomUrl(n@),
            WizardStage::CascadeName => WizardStageV::CascadeName,
            WizardStage::Entries(n, es) => WizardStageV::Entries(n@, entries_view(es@)),
            WizardStage::Done => WizardStageV::Done,
            WizardStage::Aborted => WizardStageV::Aborted,
        }
    }
}

/// The model of a [`Wizard`]: the providers (and their names in the order
/// they were added), the cascades, and the question it is at.
pub struct WizardV {
    pub providers: Map<Seq<char>, ProviderConfigV>,
    pub provider_names: Seq<Seq<char>>,
    pub cascades: Map<Seq<char>, Seq<CascadeEntryV>>,
    pub stage: WizardStageV,
}

/// The interactive setup in progress.
pub struct Wizard {
    providers: NamedMap<ProviderConfig>,
    cascades: NamedMap<CascadeConfig>,
    stage: WizardStage,
}

impl View for Wizard {
    type V = WizardV;

    closed spec fn view(&self) -> WizardV {
        WizardV {
            providers: self.providers@,
            provider_names: self.providers.names(),
            cascades: self.cascades@,
            stage: self.stage@,
        }
    }
}

/// The question shown at a stage; none once the wizard is finished or stopped.
pub open spec fn wizard_prompt(stage: WizardStageV) -> Option<Seq<char>> {
    match stage {
        WizardStageV::Providers => Some("Providers [1-5]: "@),
        WizardStageV::AskCustom => Some("Add a custom OpenAI-compatible provider? [y/N]: "@),
        WizardStageV::CustomName => Some("  Provider name: "@),
        WizardStageV::CustomUrl(_) => Some("  Base URL (e.g. https://api.example.com/v1): "@),
        WizardStageV::CascadeName => Some("Cascade name (or Enter to finish): "@),
        WizardStageV::Entries(_, _) => Some("    Entry (provider:model, or Enter to finish): "@),
        WizardStageV::Done => None,
        WizardStageV::Aborted => None,
    }
}

/// The names of a map after `name` is stored: a new name goes last.
pub open spec fn names_after_insert(ns: Seq<Seq<char>>, name: Seq<char>) -> Seq<Seq<char>> {
    if ns.contains(name) {
        ns
    } else {
        ns.push(name)
    }
}

/// The report of each choice that was not understood.
pub open spec fn unknown_lines(unknown: Seq<Seq<char>>) -> Seq<(Stream, Seq<char>)> {
    unknown.map_values(|u: Seq<char>| (Stream::Error, "Unknown option: '"@ + u + "'"@))
}

/// The menu providers a selection line picks.
pub open spec fn selection(line: Seq<char>) -> Seq<(Seq<char>, ProviderConfigV)> {
    let t = trim(line);
    if t == "all"@ || t == "a"@ {
        all_presets_spec()
    } else {
        picked(choices(line))
    }
}

/// The choices of a selection line that were not understood.
pub open spec fn selection_unknown(line: Seq<char>) -> Seq<Seq<char>> {
    let t = trim(line);
    if t == "all"@ || t == "a"@ {
        Seq::empty()
    } else {
        unknown_choices(choices(line))
    }
}

/// What one answer line does: the next state and the lines shown, in order.
pub open spec fn wizard_step_spec(s: WizardV, line: Seq<char>) -> (WizardV, Seq<(Stream, Seq<char>)>) {
    let t = trim(line);
    match s.stage {
        WizardStageV::Providers => {
            let ps = selection(line);
            (
                WizardV {
                    providers: insert_all(s.providers, ps),
                    provider_names: names_insert_all(s.provider_names, ps),
                    stage: if ps.len() > 0 {
                        WizardStageV::AskCustom
                    } else {
                        WizardStageV::Providers
                    },
                    ..s
                },
                unknown_lines(selection_unknown(line)),
            )
        },
        WizardStageV::AskCustom => if lowercase(t) == "y"@ {
            (WizardV { stage: WizardStageV::CustomName, ..s }, Seq::empty())
        } else if s.provider_names.len() == 0 {
            (
                WizardV { stage: WizardStageV::Aborted, ..s },
                seq![(Stream::Error, "No providers selected. Aborting."@)],
            )
        } else {
            (
                WizardV { stage: WizardStageV::CascadeName, ..s },
                seq![
                    (Stream::Output, Seq::empty()),
                    (Stream::Output, "Define cascades (ordered provider/model lists)."@),
                    (Stream::Output, "Leave cascade name empty to finish."@),
                ],
            )
        },
        WizardStageV::CustomName => if t.len() == 0 || s.providers.contains_key(t) {
            (
                WizardV { stage: WizardStageV::AskCustom, ..s },
                seq![(Stream::Error, "  Invalid or duplicate name."@)],
            )
        } else {
            (WizardV { stage: WizardStageV::CustomUrl(t), ..s }, Seq::empty())
        },
        WizardStageV::CustomUrl(name) => if t.len() == 0 {
            (
                WizardV { stage: WizardStageV::AskCustom, ..s },
                seq![(Stream::Error, "  Base URL is required."@)],
            )
        } else {
            (
                WizardV {
                    providers: s.providers.insert(
                        name,
                        cfgv(
                            ProviderType::Openai,
                            Some(name),
                            Some(custom_env_var_spec(name)),
                            Some(t),
                        ),
                    ),
                    provider_names: names_after_insert(s.provider_names, name),
                    stage: WizardStageV::AskCustom,
                    ..s
                },
                seq![(Stream::Output, "  Added provider '"@ + name + "'."@)],
            )
        },
        WizardStageV::CascadeName => if t.len() == 0 {
            (WizardV { stage: WizardStageV::Done, ..s }, Seq::empty())
        } else if s.cascades.contains_key(t) {
            (s, seq![(Stream::Error, "  Cascade '"@ + t + "' already exists. Skipping."@)])
        } else {
            (
                WizardV { stage: WizardStageV::Entries(t, Seq::empty()), ..s },
                seq![
                    (Stream::Output, "  Add entries for cascade '"@ + t + "' (provider/model pairs)."@),
                    (Stream::Output, "  Available providers: "@ + seq_join(s.provider_names, ", "@)),
                ],
            )
        },
        WizardStageV::Entries(name, es) => {
            let i = index_of(t, ':');
            if t.len() == 0 {
                if es.len() == 0 {
                    (
                        WizardV { stage: WizardStageV::CascadeName, ..s },
                        seq![(Stream::Error, "  Cascade '"@ + name + "' has no entries. Skipping."@)],
                    )
                } else {
                    (
                        WizardV {
                            cascades: s.cascades.insert(name, es),
                            stage: WizardStageV::CascadeName,
                            ..s
                        },
                        Seq::empty(),
                    )
                }
            } else if i < 0 {
                (s, seq![(Stream::Error, "    Format: provider:model (e.g. openai:gpt-4o)"@)])
            } else {
                let prov = trim(t.subrange(0, i));
                let model = trim(t.subrange(i + 1, t.len() as int));
                if !s.providers.contains_key(prov) {
                    (s, seq![(Stream::Error, "    Provider '"@ + prov + "' not configured."@)])
                } else {
                    (
                        WizardV {
                            stage: WizardStageV::Entries(
                                name,
                                es.push(CascadeEntryV { provider: prov, model }),
                            ),
                            ..s
                        },
                        seq![(Stream::Output, "    Added: "@ + prov + " / "@ + model)],
                    )
                }
            }
        },
        WizardStageV::Done => (s, Seq::empty()),
        WizardStageV::Aborted => (s, Seq::empty()),
    }
}

/// The models of the lines a step shows.
pub open spec fn lines_view(s: Seq<(Stream, String)>) -> Seq<(Stream, Seq<char>)> {
    s.map_values(|p: (Stream, String)| (p.0, p.1@))
}

/// Every entry names a configured provider.
pub open spec fn entries_ok(es: Seq<CascadeEntryV>, providers: Map<Seq<char>, ProviderConfigV>) -> bool {
    forall|i: int| 0 <= i < es.len() ==> providers.contains_key(#[trigger] es[i].provider)
}

/// The wizard's invariant: the provider names are those of the map; past the
/// provider question there is a provider; the custom name being asked for is
/// new; every cascade has entries, all of configured providers; the cascade
/// being filled in is new and its entries name configured providers.
pub open spec fn wizard_wf(s: WizardV) -> bool {
    &&& forall|k: Seq<char>| #[trigger] s.providers.contains_key(k) <==> s.provider_names.contains(k)
    &&& (s.stage !is Providers && s.stage !is Aborted) ==> s.provider_names.len() > 0
    &&& s.stage matches WizardStageV::CustomUrl(n) ==> !s.providers.contains_key(n)
    &&& forall|k: Seq<char>|
        #[trigger] s.cascades.contains_key(k) ==> s.cascades[k].len() > 0 && entries_ok(
            s.cascades[k],
            s.providers,
        )
    &&& s.stage matches WizardStageV::Entries(n, es) ==> !s.cascades.contains_key(n) && entries_ok(
        es,
        s.providers,
    )
}

fn err_line(out: &mut Vec<(Stream, String)>, text: String)
    ensures
        lines_view(final(out)@) == lines_view(old(out)@).push((Stream::Error, text@)),
{
    out.push((Stream::Error, text));
    assert(lines_view(out@) =~= lines_view(old(out)@).push((Stream::Error, text@)));
}

fn out_line(out: &mut Vec<(Stream, String)>, text: String)
    ensures
        lines_view(final(out)@) == lines_view(old(out)@).push((Stream::Output, text@)),
{
    out.push((Stream::Output, text));
    assert(lines_view(out@) =~= lines_view(old(out)@).push((Stream::Output, text@)));
}

impl Wizard {
    /// A wizard at its first question, with nothing configured.
    pub fn new() -> (w: Wizard)
        ensures
            w@.providers == Map::<Seq<char>, ProviderConfigV>::empty(),
            w@.provider_names == Seq::<Seq<char>>::empty(),
            w@.cascades == Map::<Seq<char>, Seq<CascadeEntryV>>::empty(),
            w@.stage == WizardStageV::Providers,
            wizard_wf(w@),
    {
        Wizard { providers: NamedMap::new(), cascades: NamedMap::new(), stage: WizardStage::Providers }
    }

    /// The question to ask next; `None` once the wizard is finished or stopped.
    pub fn prompt(&self) -> (r: Option<&'static str>)
        ensures
            match r {
                Some(p) => wizard_prompt(self@.stage) == Some(p@),
                None => wizard_prompt(self@.stage) is None,
            },
    {
        match &self.stage {
            WizardStage::Providers => Some("Providers [1-5]: "),
            WizardStage::AskCustom => Some("Add a custom OpenAI-compatible provider? [y/N]: "),
            WizardStage::CustomName => Some("  Provider name: "),
            WizardStage::CustomUrl(_) => Some("  Base URL (e.g. https://api.example.com/v1): "),
            WizardStage::CascadeName => Some("Cascade name (or Enter to finish): "),
            WizardStage::Entries(_, _) => Some("    Entry (provider:model, or Enter to finish): "),
            WizardStage::Done => None,
            WizardStage::Aborted => None,
        }
    }

    /// Whether the wizard stopped without any provider.
    pub fn is_aborted(&self) -> (b: bool)
        ensures
            b == (self@.stage is Aborted),
    {
        match &self.stage {
            WizardStage::Aborted => true,
            _ => false,
        }
    }

    /// Hands over one answer line (see [`wizard_step_spec`]); returns the lines to show.
    pub fn step(&mut self, line: &str) -> (out: Vec<(Stream, String)>)
        ensures
            (final(self)@, lines_view(out@)) == wizard_step_spec(old(self)@, line@),
    {
        let ghost s0 = self@;
        let mut stage = WizardStage::Done;
        std::mem::swap(&mut stage, &mut self.stage);
        let mut out: Vec<(Stream, String)> = Vec::new();
        assert(lines_view(out@) =~= Seq::<(Stream, Seq<char>)>::empty());
        match stage {
            WizardStage::Providers => {
                let sel = select_providers(line, &mut self.providers);
                let mut k: usize = 0;
                while k < sel.unknown.len()
                    invariant
                        k <= sel.unknown@.len(),
                        lines_view(out@) == unknown_lines(views(sel.unknown@).subrange(0, k as int)),
                    decreases sel.unknown@.len() - k,
                {
                    let mut m = String::from_str("Unknown option: '");
                    m.append(sel.unknown[k].as_str());
                    m.append("'");
                    err_line(&mut out, m);
                    assert(views(sel.unknown@).subrange(0, k + 1) =~= views(sel.unknown@).subrange(
                        0,
                        k as int,
                    ).push(sel.unknown@[k as int]@));
                    assert(lines_view(out@) =~= unknown_lines(
                        views(sel.unknown@).subrange(0, k + 1),
                    ));
                    k = k + 1;
                }
                assert(views(sel.unknown@).subrange(0, sel.unknown@.len() as int) =~= views(
                    sel.unknown@,
                ));
                proof {
                    if trim(line@) == "all"@ || trim(line@) == "a"@ {
                        assert(views(sel.unknown@) =~= Seq::<Seq<char>>::empty());
                        assert(all_presets_spec().len() > 0);
                    }
                }
                self.stage = if sel.done {
                    WizardStage::AskCustom
                } else {
                    WizardStage::Providers
                };
                out
            },
            WizardStage::AskCustom => {
                if is_yes(line) {
                    self.stage = WizardStage::CustomName;
                } else if self.providers.is_empty() {
                    err_line(&mut out, String::from_str("No providers selected. Aborting."));
                    self.stage = WizardStage::Aborted;
                } else {
                    out_line(&mut out, String::new());
                    out_line(&mut out, String::from_str("Define cascades (ordered provider/model lists)."));
                    out_line(&mut out, String::from_str("Leave cascade name empty to finish."));
                    self.stage = WizardStage::CascadeName;
                }
                out
            },
            WizardStage::CustomName => {
                match custom_provider_name(line, &self.providers) {
                    Ok(n) => {
                        self.stage = WizardStage::CustomUrl(n);
                    },
                    Err(m) => {
                        err_line(&mut out, m);
                        self.stage = WizardStage::AskCustom;
                    },
                }
                out
            },
            WizardStage::CustomUrl(name) => {
                match custom_provider(name.as_str(), line) {
                    Ok(c) => {
                        let mut m = String::from_str("  Added provider '");
                        m.append(name.as_str());
                        m.append("'.");
                        self.providers.insert(name, c);
                        out_line(&mut out, m);
                    },
                    Err(m) => {
                        err_line(&mut out, m);
                    },
                }
                self.stage = WizardStage::AskCustom;
                out
            },
            WizardStage::CascadeName => {
                match cascade_name_step(line, &self.cascades) {
                    CascadeNameStep::Finish => {
                        self.stage = WizardStage::Done;
                    },
                    CascadeNameStep::Duplicate(n) => {
                        let mut m = String::from_str("  Cascade '");
                        m.append(n.as_str());
                        m.append("' already exists. Skipping.");
                        err_line(&mut out, m);
                        self.stage = WizardStage::CascadeName;
                    },
                    CascadeNameStep::New(n) => {
                        let mut a = String::from_str("  Add entries for cascade '");
                        a.append(n.as_str());
                        a.append("' (provider/model pairs).");
                        out_line(&mut out, a);
                        let entries = self.providers.entries();
                        let mut names: Vec<String> = Vec::new();
                        let mut k: usize = 0;
                        while k < entries.len()
                            invariant
                                k <= entries@.len(),
                                entries@.len() == self.providers.names().len(),
                                forall|i: int|
                                    0 <= i < entries@.len() ==> (#[trigger] entries@[i]).0@
                                        == self.providers.names()[i],
                                views(names@) == self.providers.names().subrange(0, k as int),
                            decreases entries@.len() - k,
                        {
                            let ghost prev = names@;
                            let nm = entries[k].0.clone();
                            assert(nm@ == self.providers.names()[k as int]);
                            names.push(nm);
                            assert(views(names@) =~= views(prev).push(nm@));
                            assert(views(names@) =~= self.providers.names().subrange(0, k + 1));
                            k = k + 1;
                        }
                        assert(views(names@) =~= self.providers.names());
                        let mut b = String::from_str("  Available providers: ");
                        let j = join(&names, ", ");
                        b.append(j.as_str());
                        out_line(&mut out, b);
                        let fresh: Vec<CascadeEntry> = Vec::new();
                        assert(entries_view(fresh@) =~= Seq::<CascadeEntryV>::empty());
                        self.stage = WizardStage::Entries(n, fresh);
                    },
                }
                out
            },
            WizardStage::Entries(name, entries) => {
                let mut entries = entries;
                match cascade_entry_step(line, &self.providers) {
                    EntryStep::Finish => {
                        if entries.len() == 0 {
                            let mut m = String::from_str("  Cascade '");
                            m.append(name.as_str());
                            m.append("' has no entries. Skipping.");
                            err_line(&mut out, m);
                        } else {
                            self.cascades.insert(name, CascadeConfig { entries });
                        }
                        self.stage = WizardStage::CascadeName;
                    },
                    EntryStep::Invalid(m) => {
                        err_line(&mut out, m);
                        self.stage = WizardStage::Entries(name, entries);
                    },
                    EntryStep::Added(e) => {
                        let mut m = String::from_str("    Added: ");
                        m.append(e.provider.as_str());
                        m.append(" / ");
                        m.append(e.model.as_str());
                        out_line(&mut out, m);
                        let ghost before = entries@;
                        let ghost ev = e@;
                        entries.push(e);
                        assert(entries_view(entries@) =~= entries_view(before).push(ev));
                        self.stage = WizardStage::Entries(name, entries);
                    },
                }
                out
            },
            WizardStage::Done => {
                self.stage = WizardStage::Done;
                out
            },
            WizardStage::Aborted => {
                self.stage = WizardStage::Aborted;
                out
            },
        }
    }

    /// The configuration a finished wizard writes: its providers and cascades,
    /// and the default database and failure paths.
    pub fn finish(self) -> (c: AppConfig)
        requires
            self@.stage is Done,
        ensures
            c.providers@ == self@.providers,
            c.cascades@ == self@.cascades,
            c.database.path@ == default_db_path_spec(),
            c.failure_persistence.dir@ == default_failure_dir_spec(),
    {
        AppConfig {
            providers: self.providers,
            cascades: self.cascades,
            database: DatabaseConfig { path: crate::config::default_db_path() },
            failure_persistence: FailureConfig { dir: crate::config::default_failure_dir() },
        }
    }
}

/// Storing entries in order keeps the names of a map in step with its keys,
/// and keeps every key that was there.
proof fn lemma_insert_all(
    m: Map<Seq<char>, ProviderConfigV>,
    ns: Seq<Seq<char>>,
    ps: Seq<(Seq<char>, ProviderConfigV)>,
)
    requires
        forall|k: Seq<char>| #[trigger] m.contains_key(k) <==> ns.contains(k),
    ensures
        forall|k: Seq<char>|
            #[trigger] insert_all(m, ps).contains_key(k) <==> names_insert_all(ns, ps).contains(k),
        forall|k: Seq<char>| m.contains_key(k) ==> #[trigger] insert_all(m, ps).contains_key(k),
        ps.len() > 0 ==> names_insert_all(ns, ps).len() > 0,
    decreases ps.len(),
{
    if ps.len() > 0 {
        lemma_insert_all(m, ns, ps.drop_last());
        let prev = names_insert_all(ns, ps.drop_last());
        let last = ps.last().0;
        let m1 = insert_all(m, ps.drop_last());
        assert(insert_all(m, ps) == m1.insert(last, ps.last().1));
        assert forall|k: Seq<char>| m.contains_key(k) implies #[trigger] insert_all(m, ps).contains_key(k) by {
            assert(m1.contains_key(k));
        }
        assert forall|k: Seq<char>|
            #[trigger] insert_all(m, ps).contains_key(k) <==> names_insert_all(ns, ps).contains(k) by {
            assert(m1.contains_key(k) == prev.contains(k));
            if prev.contains(last) {
                assert(names_insert_all(ns, ps) == prev);
                if k == last {
                    assert(m1.contains_key(last));
                }
            } else {
                assert(names_insert_all(ns, ps) == prev.push(last));
                assert(prev.push(last)[prev.len() as int] == last);
                if prev.push(last).contains(k) && k != last {
                    let i = choose|i: int| 0 <= i < prev.push(last).len() && prev.push(last)[i] == k;
                    assert(prev[i] == k);
                }
                if prev.contains(k) {
                    let i = choose|i: int| 0 <= i < prev.len() && prev[i] == k;
                    assert(prev.push(last)[i] == k);
                }
            }
        }
        if prev.contains(last) {
            let i = choose|i: int| 0 <= i < prev.len() && prev[i] == last;
        }
    }
}

/// Cascade entries stay valid when providers are only added.
proof fn lemma_entries_ok_grow(
    es: Seq<CascadeEntryV>,
    a: Map<Seq<char>, ProviderConfigV>,
    b: Map<Seq<char>, ProviderConfigV>,
)
    requires
        entries_ok(es, a),
        forall|k: Seq<char>| a.contains_key(k) ==> #[trigger] b.contains_key(k),
    ensures
        entries_ok(es, b),
{
    assert forall|i: int| 0 <= i < es.len() implies b.contains_key(#[trigger] es[i].provider) by {
        assert(a.contains_key(es[i].provider));
    }
}

/// What every answer keeps: the wizard stays well-formed, it never stops
/// without a provider once it has one (so it never stops from a well-formed
/// state), no provider is dropped, and a cascade once defined keeps its
/// entries (a name given again is skipped).
pub proof fn law_wizard_step(s: WizardV, line: Seq<char>)
    requires
        wizard_wf(s),
    ensures
        ({
            let t = wizard_step_spec(s, line).0;
            &&& wizard_wf(t)
            &&& t.stage is Aborted ==> s.stage is Aborted
            &&& forall|k: Seq<char>| s.providers.contains_key(k) ==> #[trigger] t.providers.contains_key(k)
            &&& forall|k: Seq<char>|
                #[trigger] s.cascades.contains_key(k) ==> t.cascades.contains_key(k) && t.cascades[k]
                    == s.cascades[k]
        }),
{
    let t = wizard_step_spec(s, line).0;
    match s.stage {
        WizardStageV::Providers => {
            let ps = selection(line);
            lemma_insert_all(s.providers, s.provider_names, ps);
            assert forall|k: Seq<char>| #[trigger] t.cascades.contains_key(k) implies t.cascades[k].len() > 0
                && entries_ok(t.cascades[k], t.providers) by {
                lemma_entries_ok_grow(s.cascades[k], s.providers, t.providers);
            }
        },
        WizardStageV::CustomUrl(name) => {
            assert forall|k: Seq<char>| #[trigger] t.providers.contains_key(k) <==> t.provider_names.contains(k) by {
                if !s.provider_names.contains(name) {
                    let p = s.provider_names.push(name);
                    assert(p[s.provider_names.len() as int] == name);
                    if p.contains(k) && k != name {
                        let i = choose|i: int| 0 <= i < p.len() && p[i] == k;
                        assert(s.provider_names[i] == k);
                    }
                    if s.provider_names.contains(k) {
                        let i = choose|i: int| 0 <= i < s.provider_names.len() && s.provider_names[i] == k;
                        assert(p[i] == k);
                    }
                }
            }
            assert forall|k: Seq<char>| #[trigger] t.cascades.contains_key(k) implies t.cascades[k].len() > 0
                && entries_ok(t.cascades[k], t.providers) by {
                lemma_entries_ok_grow(s.cascades[k], s.providers, t.providers);
            }
        },
        WizardStageV::Entries(name, es) => {
            let tl = trim(line);
            let i = index_of(tl, ':');
            if tl.len() > 0 && i >= 0 {
                let prov = trim(tl.subrange(0, i));
                let model = trim(tl.subrange(i + 1, tl.len() as int));
                if s.providers.contains_key(prov) {
                    let es2 = es.push(CascadeEntryV { provider: prov, model });
                    assert forall|j: int| 0 <= j < es2.len() implies s.providers.contains_key(
                        #[trigger] es2[j].provider,
                    ) by {
                        if j < es.len() {
                            assert(es2[j] == es[j]);
                        }
                    }
                }
            }
        },
        _ => {},
    }
}

/// A finished wizard's configuration is usable: it has a provider, and every
/// cascade has entries, each naming a configured provider.
pub proof fn law_wizard_done(s: WizardV)
    requires
        wizard_wf(s),
        s.stage is Done,
    ensures
        exists|k: Seq<char>| s.providers.contains_key(k),
        forall|k: Seq<char>|
            #[trigger] s.cascades.contains_key(k) ==> s.cascades[k].len() > 0 && entries_ok(
                s.cascades[k],
                s.providers,
            ),
{
    let k = s.provider_names[0];
    assert(s.provider_names.contains(k));
    assert(s.providers.contains_key(k));
}

} // verus!
