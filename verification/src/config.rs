//! The configuration model and the cross-reference check that every loaded
//! configuration has to pass.

use vstd::prelude::*;
use crate::repos::{has_name, Repo, Repos};

verus! {

/// What to back up, and into which repository.
#[derive(Debug, Clone, PartialEq, Eq)]
pub struct Backup {
    pub repo_name: String,
    pub exclude_patterns: Option<Vec<String>>,
    pub include_paths: Vec<String>,
    pub pre_command: Option<String>,
    pub post_command: Option<String>,
}

/// A source and a destination repository of the bulk copy, by name.
#[derive(Debug, Clone, PartialEq, Eq)]
pub struct CopyPair {
    pub src: String,
    pub dest: String,
}

/// The bulk copy: the pairs to copy, and shell commands to run around each copy.
#[derive(Debug, Clone, PartialEq, Eq)]
pub struct Copy {
    pub pre_command: Option<String>,
    pub post_command: Option<String>,
    pub pairs: Vec<CopyPair>,
}

/// How many snapshots of each period to keep. An absent count passes no flag.
#[derive(Debug, Clone, PartialEq, Eq)]
pub struct Forget {
    pub keep_daily: Option<u32>,
    pub keep_weekly: Option<u32>,
    pub keep_monthly: Option<u32>,
    pub keep_yearly: Option<u32>,
    pub keep_hourly: Option<u32>,
}

/// The root of the configuration.
#[derive(Debug)]
pub struct Config {
    pub repos: Repos,
    pub backup: Backup,
    pub copy: Option<Copy>,
    pub forget: Forget,
    pub pre_command: Option<String>,
    pub post_command: Option<String>,
}

/// The place in a configuration from which a repository is referenced.
#[derive(Debug, Clone, Copy, PartialEq, Eq, Structural)]
pub enum RepoRef {
    /// `backup.repo_name`
    Backup,
    /// the `src` of a copy pair
    CopySource,
    /// the `dest` of a copy pair
    CopyDestination,
}

/// Why no configuration could be loaded.
#[derive(Debug, Clone, PartialEq, Eq)]
pub enum ConfigError {
    /// None of the candidate files exists.
    NotFound,
    /// The file exists but does not hold a configuration; the text says why.
    ParseError(String),
    /// The configuration names a repository that it does not define.
    UnknownRepo(String, RepoRef),
}

/// Both ends of the pair are configured repositories.
pub open spec fn pair_known(repos: Seq<Repo>, pair: CopyPair) -> bool {
    has_name(repos, pair.src@) && has_name(repos, pair.dest@)
}

/// The copy pairs of a configuration; none where it has no copy section.
pub open spec fn copy_pairs(config: Config) -> Seq<CopyPair> {
    match config.copy {
        Some(copy) => copy.pairs@,
        None => Seq::empty(),
    }
}

/// Every repository that the configuration refers to is one that it defines.
pub open spec fn config_valid(config: Config) -> bool {
    &&& has_name(config.repos@, config.backup.repo_name@)
    &&& forall|i: int|
        0 <= i < copy_pairs(config).len() ==> pair_known(
            config.repos@,
            #[trigger] copy_pairs(config)[i],
        )
}

/// Pair `i` is the first one with an end that is not configured.
pub open spec fn first_unknown_pair(repos: Seq<Repo>, pairs: Seq<CopyPair>, i: int) -> bool {
    &&& 0 <= i < pairs.len()
    &&& !pair_known(repos, pairs[i])
    &&& forall|j: int| 0 <= j < i ==> pair_known(repos, #[trigger] pairs[j])
}

/// `name` and `origin` describe the first dangling reference of the
/// configuration: the backup repository comes before the copy pairs, the pairs
/// go in their order, and within a pair the source comes before the destination.
pub open spec fn first_unknown_reference(config: Config, name: Seq<char>, origin: RepoRef) -> bool {
    if !has_name(config.repos@, config.backup.repo_name@) {
        name == config.backup.repo_name@ && origin == RepoRef::Backup
    } else {
        exists|i: int|
            #![trigger copy_pairs(config)[i]]
            first_unknown_pair(config.repos@, copy_pairs(config), i) && {
                let pair = copy_pairs(config)[i];
                if !has_name(config.repos@, pair.src@) {
                    name == pair.src@ && origin == RepoRef::CopySource
                } else {
                    name == pair.dest@ && origin == RepoRef::CopyDestination
                }
            }
    }
}

/// Checks that every repository the configuration refers to is defined in it.
///
/// A valid configuration is handed back unchanged. Otherwise the error names
/// the first dangling reference and where it stands.
pub fn validate_config(config: Config) -> (checked: Result<Config, ConfigError>)
    ensures
        checked is Ok <==> config_valid(config),
        checked matches Ok(same) ==> same == config,
        checked matches Err(error) ==> error matches ConfigError::UnknownRepo(name, origin)
            && first_unknown_reference(config, name@, origin),
{
    if !config.repos.contains(config.backup.repo_name.as_str()) {
        return Err(ConfigError::UnknownRepo(config.backup.repo_name.clone(), RepoRef::Backup));
    }
    match &config.copy {
        Some(copy) => {
            let mut i: usize = 0;
            while i < copy.pairs.len()
                invariant
                    i <= copy.pairs.len(),
                    config.copy == Some(*copy),
                    has_name(config.repos@, config.backup.repo_name@),
                    forall|j: int|
                        0 <= j < i ==> pair_known(config.repos@, #[trigger] copy.pairs@[j]),
                decreases copy.pairs.len() - i,
            {
                let pair = &copy.pairs[i];
                if !config.repos.contains(pair.src.as_str()) {
                    return Err(ConfigError::UnknownRepo(pair.src.clone(), RepoRef::CopySource));
                }
                if !config.repos.contains(pair.dest.as_str()) {
                    assert(first_unknown_pair(config.repos@, copy_pairs(config), i as int));
                    return Err(
                        ConfigError::UnknownRepo(pair.dest.clone(), RepoRef::CopyDestination),
                    );
                }
                i += 1;
            }
        },
        None => {},
    }
    Ok(config)
}

/// Picks the configuration file among the candidate paths, given for each
/// candidate whether it exists: the first one that exists wins, and the
/// candidates after it play no part.
pub fn first_existing(exists: &Vec<bool>) -> (chosen: Option<usize>)
    ensures
        match chosen {
            Some(index) => index < exists@.len() && exists@[index as int] && forall|j: int|
                0 <= j < index ==> !exists@[j],
            None => forall|j: int| 0 <= j < exists@.len() ==> !exists@[j],
        },
{
    let mut i: usize = 0;
    while i < exists.len()
        invariant
            i <= exists.len(),
            forall|j: int| 0 <= j < i ==> !exists@[j],
        decreases exists.len() - i,
    {
        if exists[i] {
            return Some(i);
        }
        i += 1;
    }
    None
}

/// What looking for the configuration file gave.
#[derive(Debug)]
pub enum Loaded {
    /// None of the candidate files exists.
    Missing,
    /// The first existing candidate could not be read as a configuration.
    Unreadable(String),
    /// The first existing candidate held this configuration.
    Parsed(Config),
}

/// Decides what a load amounts to: a configuration counts as loaded only if a
/// candidate file exists, holds a configuration, and that configuration is
/// valid.
pub fn load_config(loaded: Loaded) -> (outcome: Result<Config, ConfigError>)
    ensures
        match loaded {
            Loaded::Missing => outcome matches Err(ConfigError::NotFound),
            Loaded::Unreadable(reason) => outcome matches Err(ConfigError::ParseError(text))
                && text == reason,
            Loaded::Parsed(config) => {
                &&& outcome is Ok <==> config_valid(config)
                &&& outcome matches Ok(same) ==> same == config
                &&& outcome matches Err(error) ==> error matches ConfigError::UnknownRepo(
                    name,
                    origin,
                ) && first_unknown_reference(config, name@, origin)
            },
        },
{
    match loaded {
        Loaded::Missing => Err(ConfigError::NotFound),
        Loaded::Unreadable(reason) => Err(ConfigError::ParseError(reason)),
        Loaded::Parsed(config) => validate_config(config),
    }
}

/// A configuration whose backup repository is not configured is invalid, and
/// the reference reported for it is that of the backup section: the name is
/// `backup.repo_name`, whatever the copy pairs hold.
pub proof fn lemma_unknown_backup_repo_is_reported(
    config: Config,
    name: Seq<char>,
    origin: RepoRef,
)
    requires
        !has_name(config.repos@, config.backup.repo_name@),
        first_unknown_reference(config, name, origin),
    ensures
        !config_valid(config),
        name == config.backup.repo_name@,
        origin == RepoRef::Backup,
{
}

/// A configuration with a copy pair whose source or destination is not
/// configured is invalid. Where the backup repository is configured, the
/// reference reported for it is an end of a copy pair: the name is not
/// configured, it is the source or the destination of a pair at or before
/// the given one, and the origin says which of the two it is.
pub proof fn lemma_unknown_pair_is_reported(
    config: Config,
    i: int,
    name: Seq<char>,
    origin: RepoRef,
)
    requires
        0 <= i < copy_pairs(config).len(),
        !pair_known(config.repos@, copy_pairs(config)[i]),
        has_name(config.repos@, config.backup.repo_name@),
        first_unknown_reference(config, name, origin),
    ensures
        !config_valid(config),
        !has_name(config.repos@, name),
        origin != RepoRef::Backup,
        exists|j: int|
            0 <= j <= i && (if origin == RepoRef::CopySource {
                name == (#[trigger] copy_pairs(config)[j]).src@
            } else {
                name == copy_pairs(config)[j].dest@
            }),
{
    let j = choose|j: int|
        #![trigger copy_pairs(config)[j]]
        first_unknown_pair(config.repos@, copy_pairs(config), j) && {
            let pair = copy_pairs(config)[j];
            if !has_name(config.repos@, pair.src@) {
                name == pair.src@ && origin == RepoRef::CopySource
            } else {
                name == pair.dest@ && origin == RepoRef::CopyDestination
            }
        };
    if i < j {
        assert(pair_known(config.repos@, copy_pairs(config)[i]));
    }
}

} // verus!
