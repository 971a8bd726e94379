//! The account command: which subcommand was requested and with which
//! settings. The surrounding program parses the command line and hands the
//! matched subcommand in as plain values; the decisions are made here.

use vstd::prelude::*;

verus! {

/// How a synchronization selects folders: only the given ones, all but the
/// given ones, or all of them.
#[derive(Debug, PartialEq, Eq)]
pub enum FolderStrategy {
    Include(Vec<String>),
    Exclude(Vec<String>),
    All,
}

/// The account commands.
#[derive(Debug, PartialEq, Eq)]
pub enum Cmd {
    /// Lists the accounts, under an optional table width bound.
    List(Option<usize>),
    /// Synchronizes the account with the given folder strategy; the flag
    /// asks for a dry run.
    Sync(Option<FolderStrategy>, bool),
    /// Configures the account; the flag asks for a reset.
    Configure(bool),
}

/// The arguments of the sync subcommand, as parsed from the command line.
#[derive(Debug)]
pub struct SyncArgs {
    pub dry_run: bool,
    pub source: Option<String>,
    pub included: Vec<String>,
    pub exclude: Vec<String>,
    pub all: bool,
}

/// One matched account subcommand, as parsed from the command line.
#[derive(Debug)]
pub enum AccountSubcmd {
    Configure(bool),
    List(Option<usize>),
    Sync(SyncArgs),
}

/// The folder strategy a sync request asks for, in order of precedence: a
/// single global source folder, the folders named for inclusion, the excluded folders,
/// everything, or no strategy at all.
pub open spec fn spec_folders_strategy(
    source: Option<Seq<char>>,
    included: Seq<Seq<char>>,
    exclude: Seq<Seq<char>>,
    all: bool,
) -> Option<(int, Seq<Seq<char>>)> {
    if source is Some {
        Option::Some((0int, seq![source.unwrap()]))
    } else if included.len() > 0 {
        Option::Some((0int, included))
    } else if exclude.len() > 0 {
        Option::Some((1int, exclude))
    } else if all {
        Option::Some((2int, Seq::empty()))
    } else {
        Option::None
    }
}

/// The view of a folder strategy: which variant (inclusion, exclusion, all)
/// and the folder names it carries.
pub open spec fn strategy_view(s: FolderStrategy) -> (int, Seq<Seq<char>>) {
    match s {
        FolderStrategy::Include(f) => (0int, f@.map_values(|x: String| x@)),
        FolderStrategy::Exclude(f) => (1int, f@.map_values(|x: String| x@)),
        FolderStrategy::All => (2int, Seq::empty()),
    }
}

/// Decides the folder strategy of a sync request.
pub fn folders_strategy(
    source: Option<String>,
    included: Vec<String>,
    exclude: Vec<String>,
    all: bool,
) -> (r: Option<FolderStrategy>)
    ensures
        match r {
            Option::Some(s) => Option::Some(strategy_view(s)) == spec_folders_strategy(
                match source {
                    Option::Some(f) => Option::Some(f@),
                    Option::None => Option::None,
                },
                included@.map_values(|x: String| x@),
                exclude@.map_values(|x: String| x@),
                all,
            ),
            Option::None => spec_folders_strategy(
                match source {
                    Option::Some(f) => Option::Some(f@),
                    Option::None => Option::None,
                },
                included@.map_values(|x: String| x@),
                exclude@.map_values(|x: String| x@),
                all,
            ) is None,
        },
{
    if let Some(folder) = source {
        let mut one: Vec<String> = Vec::new();
        one.push(folder);
        proof {
            assert(one@.map_values(|x: String| x@) =~= seq![one@[0]@]);
        }
        Some(FolderStrategy::Include(one))
    } else if included.len() > 0 {
        Some(FolderStrategy::Include(included))
    } else if exclude.len() > 0 {
        Some(FolderStrategy::Exclude(exclude))
    } else if all {
        Some(FolderStrategy::All)
    } else {
        None
    }
}

/// Maps the matched account subcommand to the account command: configure
/// and list pass their settings through; sync decides its folder strategy.
/// No matched subcommand means no command.
pub fn matches(subcmd: Option<AccountSubcmd>) -> (r: Option<Cmd>)
    ensures
        subcmd is None ==> r is None,
        (subcmd matches Some(s) ==> match s {
            AccountSubcmd::Configure(reset) => r == Option::Some(Cmd::Configure(reset)),
            AccountSubcmd::List(w) => r == Option::Some(Cmd::List(w)),
            AccountSubcmd::Sync(args) => r matches Some(c) && (c matches Cmd::Sync(strat, dry)
                && dry == args.dry_run && match strat {
                Option::Some(st) => Option::Some(strategy_view(st)) == spec_folders_strategy(
                    match args.source {
                        Option::Some(f) => Option::Some(f@),
                        Option::None => Option::None,
                    },
                    args.included@.map_values(|x: String| x@),
                    args.exclude@.map_values(|x: String| x@),
                    args.all,
                ),
                Option::None => spec_folders_strategy(
                    match args.source {
                        Option::Some(f) => Option::Some(f@),
                        Option::None => Option::None,
                    },
                    args.included@.map_values(|x: String| x@),
                    args.exclude@.map_values(|x: String| x@),
                    args.all,
                ) is None,
            }),
        }),
{
    match subcmd {
        None => None,
        Some(AccountSubcmd::Configure(reset)) => Some(Cmd::Configure(reset)),
        Some(AccountSubcmd::List(w)) => Some(Cmd::List(w)),
        Some(AccountSubcmd::Sync(args)) => {
            let strategy = folders_strategy(args.source, args.included, args.exclude, args.all);
            Some(Cmd::Sync(strategy, args.dry_run))
        },
    }
}

} // verus!
