//! The settings of one run: which blocks are targets, and where archived
//! copies live.

use vstd::prelude::*;
use vstd::string::StringExecFns;

verus! {

/// The settings as plain values.
pub struct ConfigView {
    /// Prefix of every archive URL; absent means the empty prefix.
    pub archives: Option<Seq<char>>,
    /// The info string that marks a fenced block as a target.
    pub label: Seq<char>,
}

impl ConfigView {
    /// The prefix that is put before an archive reference.
    pub open spec fn archives_prefix(self) -> Seq<char> {
        match self.archives {
            Some(prefix) => prefix,
            None => Seq::empty(),
        }
    }
}

/// Settings of the preprocessor. They are fixed once constructed.
#[derive(Debug)]
pub struct Config {
    /// Base path where archives are stored.
    archives: Option<String>,
    /// Label to look for.
    label: String,
}

/// The label that marks target blocks when none is configured.
pub fn default_label() -> (label: String)
    ensures
        label@ == "reading"@,
{
    String::from_str("reading")
}

impl View for Config {
    type V = ConfigView;

    closed spec fn view(&self) -> ConfigView {
        ConfigView {
            archives: match self.archives {
                Some(prefix) => Some(prefix@),
                None => None,
            },
            label: self.label@,
        }
    }
}

impl Config {
    /// Settings with the given archive prefix and target label.
    pub fn new(archives: Option<String>, label: String) -> (config: Config)
        ensures
            config@ == (ConfigView {
                archives: match archives {
                    Some(prefix) => Some(prefix@),
                    None => None,
                },
                label: label@,
            }),
    {
        Config { archives, label }
    }

    /// The target label.
    pub fn label(&self) -> (label: &str)
        ensures
            label@ == self@.label,
    {
        self.label.as_str()
    }

    /// The configured archive prefix, if there is one.
    pub fn archives(&self) -> (archives: Option<&str>)
        ensures
            match archives {
                Some(prefix) => self@.archives == Some(prefix@),
                None => self@.archives is None,
            },
    {
        match &self.archives {
            Some(prefix) => Some(prefix.as_str()),
            None => None,
        }
    }

    /// Whether an info string is the target label.
    pub fn is_label(&self, info: &String) -> (same: bool)
        ensures
            same == (info@ == self@.label),
    {
        *info == self.label
    }

    /// The prefix that is put before an archive reference: the configured
    /// one, or the empty string.
    pub fn archives_prefix(&self) -> (prefix: &str)
        ensures
            prefix@ == self@.archives_prefix(),
    {
        match &self.archives {
            Some(prefix) => prefix.as_str(),
            None => {
                proof {
                    reveal_strlit("");
                    assert(""@ =~= Seq::<char>::empty());
                }
                ""
            },
        }
    }
}

} // verus!
