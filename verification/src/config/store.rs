//! Changing and showing the configuration store: delete, show, list, and
//! the default.

use crate::config::{
    config_views, first_named, lemma_first_named, names_unique, upserted, SavedConfig,
    SavedConfigView, SavedConfigs, SavedConfigsView,
};
use crate::error::ConfigError;
use crate::text::{decimal, push_decimal, same_text, texts};
use vstd::prelude::*;
use vstd::string::*;

verus! {

/// The position that a name or an index selects. The name counts where
/// both are given; it selects the first configuration called so.
pub open spec fn selected(items: Seq<SavedConfigView>, name: Option<Seq<char>>, index: Option<usize>)
    -> Result<int, ConfigError> {
    match name {
        Some(n) => match first_named(items, n) {
            Some(i) => Ok(i),
            None => Err(ConfigError::NotFound),
        },
        None => match index {
            Some(i) => if i < items.len() {
                Ok(i as int)
            } else {
                Err(ConfigError::IndexOutOfRange)
            },
            None => Err(ConfigError::NoSelector),
        },
    }
}

/// The store without the configuration at `pos`. Where that one was the
/// default, there is no default any more.
pub open spec fn deleted(cfgs: SavedConfigsView, pos: int) -> SavedConfigsView {
    SavedConfigsView {
        default: if cfgs.default == Some(cfgs.items[pos].name()) {
            None
        } else {
            cfgs.default
        },
        priority: cfgs.priority,
        items: cfgs.items.remove(pos),
    }
}

/// The default, if there is one, names a saved configuration.
pub open spec fn default_saved(cfgs: SavedConfigsView) -> bool {
    match cfgs.default {
        Some(d) => exists|i: int| 0 <= i < cfgs.items.len() && (#[trigger] cfgs.items[i]).name() == d,
        None => true,
    }
}

/// Deleting the configuration that the default names leaves no default.
pub proof fn lemma_delete_clears_default(cfgs: SavedConfigsView, pos: int)
    requires
        0 <= pos < cfgs.items.len(),
        cfgs.default == Some(cfgs.items[pos].name()),
    ensures
        deleted(cfgs, pos).default is None,
{
}

/// Deleting a configuration never leaves a default that names nothing: a
/// default that named a saved configuration before still does, or is gone.
pub proof fn lemma_delete_keeps_default_saved(cfgs: SavedConfigsView, pos: int)
    requires
        0 <= pos < cfgs.items.len(),
        default_saved(cfgs),
    ensures
        default_saved(deleted(cfgs, pos)),
{
    let after = deleted(cfgs, pos);
    if after.default is Some {
        let d = cfgs.default->0;
        let i = choose|i: int| 0 <= i < cfgs.items.len() && (#[trigger] cfgs.items[i]).name() == d;
        assert(i != pos);
        let j = if i < pos {
            i
        } else {
            i - 1
        };
        assert(after.items[j] == cfgs.items[i]);
    }
}

/// Deleting a configuration keeps the names distinct.
pub proof fn lemma_delete_keeps_names_unique(cfgs: SavedConfigsView, pos: int)
    requires
        0 <= pos < cfgs.items.len(),
        names_unique(cfgs.items),
    ensures
        names_unique(deleted(cfgs, pos).items),
{
    let after = deleted(cfgs, pos).items;
    assert forall|i: int, j: int| 0 <= i < j < after.len() implies (#[trigger] after[i]).name() != (
    #[trigger] after[j]).name() by {
        let a = if i < pos {
            i
        } else {
            i + 1
        };
        let b = if j < pos {
            j
        } else {
            j + 1
        };
        assert(after[i] == cfgs.items[a]);
        assert(after[j] == cfgs.items[b]);
    }
}

/// Putting a configuration into a store keeps the names distinct, so a
/// name stays a key: there is one configuration of the new name and no
/// second one of any other.
pub proof fn lemma_upsert_keeps_names_unique(items: Seq<SavedConfigView>, cfg: SavedConfigView)
    requires
        names_unique(items),
    ensures
        names_unique(upserted(items, cfg)),
        first_named(upserted(items, cfg), cfg.name()) is Some,
        upserted(items, cfg)[first_named(upserted(items, cfg), cfg.name())->0] == cfg,
{
    let after = upserted(items, cfg);
    lemma_first_named(items, cfg.name());
    lemma_first_named(after, cfg.name());
    match first_named(items, cfg.name()) {
        Some(at) => {
            assert forall|i: int, j: int| 0 <= i < j < after.len() implies (#[trigger] after[i]).name()
                != (#[trigger] after[j]).name() by {
                assert(after[i].name() == items[i].name());
                assert(after[j].name() == items[j].name());
            }
            assert(after[at].name() == cfg.name());
            let found = first_named(after, cfg.name())->0;
            if found != at {
                assert(after[found].name() == items[found].name());
                assert(items[at].name() == cfg.name());
            }
        },
        None => {
            let n = items.len() as int;
            assert(after[n] == cfg);
            assert forall|i: int, j: int| 0 <= i < j < after.len() implies (#[trigger] after[i]).name()
                != (#[trigger] after[j]).name() by {
                assert(after[i] == items[i]);
                if j < n {
                    assert(after[j] == items[j]);
                }
            }
            let found = first_named(after, cfg.name())->0;
            if found < n {
                assert(after[found] == items[found]);
            }
        },
    }
}

/// What `show` shows: nothing from an empty store, the only configuration
/// of a store with one, and else the selected one.
pub open spec fn shown(cfgs: SavedConfigsView, name: Option<Seq<char>>, index: Option<usize>)
    -> Result<Option<SavedConfigView>, ConfigError> {
    if cfgs.items.len() == 0 {
        Ok(None)
    } else if cfgs.items.len() == 1 {
        Ok(Some(cfgs.items[0]))
    } else {
        match selected(cfgs.items, name, index) {
            Ok(i) => Ok(Some(cfgs.items[i])),
            Err(e) => Err(e),
        }
    }
}

/// The line of the configuration at `i` in the list: the position, a star
/// in brackets for the default, the name and the mode.
pub open spec fn list_line(cfgs: SavedConfigsView, i: int) -> Seq<char> {
    let c = cfgs.items[i];
    let mark = if cfgs.default == Some(c.name()) {
        "*"@
    } else {
        " "@
    };
    decimal(i as nat) + " ["@ + mark + "] "@ + c.name() + " "@ + c.mode.tag()
}

/// The lines of the list, one for each configuration.
pub open spec fn list_lines(cfgs: SavedConfigsView) -> Seq<Seq<char>> {
    Seq::new(cfgs.items.len(), |i: int| list_line(cfgs, i))
}

impl SavedConfigs {
    fn select(&self, name: Option<&str>, index: Option<usize>) -> (r: Result<usize, ConfigError>)
        ensures
            match r {
                Ok(i) => i < self.items.len() && selected(
                    self@.items,
                    match name {
                        Some(n) => Some(n@),
                        None => None,
                    },
                    index,
                ) == Ok::<int, ConfigError>(i as int),
                Err(e) => selected(
                    self@.items,
                    match name {
                        Some(n) => Some(n@),
                        None => None,
                    },
                    index,
                ) == Err::<int, ConfigError>(e),
            },
    {
        match name {
            Some(n) => match self.position(n) {
                Some(i) => Ok(i),
                None => Err(ConfigError::NotFound),
            },
            None => match index {
                Some(i) => if i < self.items.len() {
                    Ok(i)
                } else {
                    Err(ConfigError::IndexOutOfRange)
                },
                None => Err(ConfigError::NoSelector),
            },
        }
    }

    /// Whether `name` is the default.
    pub fn is_default(&self, name: &str) -> (r: bool)
        ensures
            r == (self@.default == Some(name@)),
    {
        match &self.default {
            Some(d) => same_text(d.as_str(), name),
            None => false,
        }
    }

    /// Deletes the configuration that the name or the index selects, and
    /// hands it out. Where it was the default, no default is left. Where
    /// nothing is selected the store stays as it is.
    pub fn delete(&mut self, name: Option<&str>, index: Option<usize>) -> (r: Result<
        SavedConfig,
        ConfigError,
    >)
        ensures
            match selected(
                old(self)@.items,
                match name {
                    Some(n) => Some(n@),
                    None => None,
                },
                index,
            ) {
                Ok(pos) => r is Ok && r->Ok_0@ == old(self)@.items[pos] && final(self)@ == deleted(
                    old(self)@,
                    pos,
                ),
                Err(e) => r == Err::<SavedConfig, ConfigError>(e) && final(self)@ == old(self)@,
            },
    {
        let pos = match self.select(name, index) {
            Ok(pos) => pos,
            Err(e) => {
                return Err(e);
            },
        };
        let removed = self.items.remove(pos);
        assert(config_views(self.items@) == old(self)@.items.remove(pos as int));
        if self.is_default(removed.name()) {
            self.default = None;
        }
        Ok(removed)
    }

    /// The configuration that `show` shows.
    pub fn show(&self, name: Option<&str>, index: Option<usize>) -> (r: Result<
        Option<SavedConfig>,
        ConfigError,
    >)
        ensures
            match shown(
                self@,
                match name {
                    Some(n) => Some(n@),
                    None => None,
                },
                index,
            ) {
                Ok(Some(c)) => r is Ok && r->Ok_0 is Some && r->Ok_0->0@ == c,
                Ok(None) => r is Ok && r->Ok_0 is None,
                Err(e) => r == Err::<Option<SavedConfig>, ConfigError>(e),
            },
    {
        if self.items.len() == 0 {
            return Ok(None);
        }
        if self.items.len() == 1 {
            return Ok(Some(self.items[0].clone()));
        }
        match self.select(name, index) {
            Ok(i) => Ok(Some(self.items[i].clone())),
            Err(e) => Err(e),
        }
    }

    /// The lines of the list of configurations.
    pub fn list(&self) -> (r: Vec<String>)
        ensures
            texts(r@) == list_lines(self@),
    {
        let mut lines: Vec<String> = Vec::new();
        for i in 0..self.items.len()
            invariant
                lines@.len() == i,
                forall|j: int| 0 <= j < i ==> (#[trigger] lines@[j])@ == list_line(self@, j),
        {
            let c = &self.items[i];
            let mut line = String::new();
            push_decimal(&mut line, i as u64);
            line.append(" [");
            if self.is_default(c.name()) {
                line.append("*");
            } else {
                line.append(" ");
            }
            line.append("] ");
            line.append(c.name());
            line.append(" ");
            line.append(c.mode.tag_text());
            assert(line@ == list_line(self@, i as int));
            lines.push(line);
        }
        assert(texts(lines@) == list_lines(self@));
        lines
    }

    /// Whether somebody should be asked for a default: there is none, and
    /// there are at least two configurations to choose from.
    pub fn wants_default(&self) -> (r: bool)
        ensures
            r == (self@.items.len() >= 2 && self@.default is None),
    {
        self.items.len() >= 2 && self.default.is_none()
    }
}

} // verus!
