//! The supported builds of the external core, their names and the
//! command lines they are started with.

use vstd::prelude::*;
use vstd::string::StringExecFns;

verus! {

/// A build of the external core. The variant decides the name of the
/// binary that is launched; both variants take the same flags.
#[derive(Debug, Clone, Copy, PartialEq, Eq, Structural)]
pub enum ClashCore {
    Mihomo,
    MihomoAlpha,
}

/// The two ways in which the core binary is invoked.
#[derive(Debug, Clone, Copy, PartialEq, Eq, Structural)]
pub enum ConfigType {
    /// The configuration a running core consumes.
    Run,
    /// A separate copy that is only validated.
    Check,
}

/// Whether two string slices hold the same characters.
pub(crate) fn same_text(a: &str, b: &str) -> (same: bool)
    ensures
        same == (a@ == b@),
{
    let left = a.to_owned();
    let right = b.to_owned();
    left == right
}

impl ClashCore {
    /// The name of the variant, which is also the name of its binary.
    pub open spec fn spec_name(self) -> Seq<char> {
        match self {
            ClashCore::Mihomo => "mihomo"@,
            ClashCore::MihomoAlpha => "mihomo-alpha"@,
        }
    }

    /// The variant that a name stands for. `clash-meta` is an older name of
    /// `mihomo`.
    pub open spec fn spec_from_name(name: Seq<char>) -> Option<ClashCore> {
        if name == "mihomo"@ || name == "clash-meta"@ {
            Some(ClashCore::Mihomo)
        } else if name == "mihomo-alpha"@ {
            Some(ClashCore::MihomoAlpha)
        } else {
            None
        }
    }

    /// The flag that selects what the core does with the configuration:
    /// `-m` runs it, `-t` only validates it.
    pub open spec fn spec_mode_flag(kind: ConfigType) -> Seq<char> {
        match kind {
            ConfigType::Run => "-m"@,
            ConfigType::Check => "-t"@,
        }
    }

    /// The argument list of an invocation: the mode flag, then the data
    /// directory and the configuration file, each behind its flag.
    pub open spec fn spec_args(kind: ConfigType, app_dir: Seq<char>, config_path: Seq<char>) -> Seq<
        Seq<char>,
    > {
        seq![Self::spec_mode_flag(kind), "-d"@, app_dir, "-f"@, config_path]
    }

    pub fn name(&self) -> (name: &'static str)
        ensures
            name@ == self.spec_name(),
    {
        match self {
            ClashCore::Mihomo => "mihomo",
            ClashCore::MihomoAlpha => "mihomo-alpha",
        }
    }

    pub fn from_name(name: &str) -> (core: Option<ClashCore>)
        ensures
            core == Self::spec_from_name(name@),
    {
        if same_text(name, "mihomo") || same_text(name, "clash-meta") {
            Some(ClashCore::Mihomo)
        } else if same_text(name, "mihomo-alpha") {
            Some(ClashCore::MihomoAlpha)
        } else {
            None
        }
    }

    /// The arguments with which the binary of any variant is invoked.
    pub fn args(kind: ConfigType, app_dir: &str, config_path: &str) -> (args: Vec<String>)
        ensures
            args@.len() == 5,
            forall|i: int|
                0 <= i < 5 ==> (#[trigger] args@[i])@ == Self::spec_args(
                    kind,
                    app_dir@,
                    config_path@,
                )[i],
    {
        let mode = match kind {
            ConfigType::Run => "-m",
            ConfigType::Check => "-t",
        };
        let mut args: Vec<String> = Vec::new();
        args.push(String::from_str(mode));
        args.push(String::from_str("-d"));
        args.push(String::from_str(app_dir));
        args.push(String::from_str("-f"));
        args.push(String::from_str(config_path));
        args
    }
}

impl Default for ClashCore {
    fn default() -> (core: ClashCore)
        ensures
            core == ClashCore::MihomoAlpha,
    {
        ClashCore::MihomoAlpha
    }
}

/// A name always leads back to the variant it belongs to.
pub proof fn lemma_name_round_trip(core: ClashCore)
    ensures
        ClashCore::spec_from_name(core.spec_name()) == Some(core),
{
    reveal_strlit("mihomo");
    reveal_strlit("clash-meta");
    reveal_strlit("mihomo-alpha");
    if core == ClashCore::MihomoAlpha {
        assert("mihomo-alpha"@.len() != "mihomo"@.len());
        assert("mihomo-alpha"@.len() != "clash-meta"@.len());
    }
}

} // verus!
