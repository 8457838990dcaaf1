//! Commands as plain values: what is run, with which arguments, where, and in
//! which environment.

use vstd::prelude::*;

use crate::host::Platform;
use crate::text::{cat2, cat3, texts};

verus! {

/// A command. An entry of the environment that comes later replaces an earlier
/// one of the same name. What has no entry is inherited where `inherit` is set.
#[derive(Debug)]
pub struct CommandPlan {
    pub program: String,
    pub arguments: Vec<String>,
    pub directory: Option<String>,
    pub inherit: bool,
    pub environment: Vec<(String, String)>,
}

/// The value of a [`CommandPlan`].
#[verifier::ext_equal]
pub struct CommandPlanView {
    pub program: Seq<char>,
    pub arguments: Seq<Seq<char>>,
    pub directory: Option<Seq<char>>,
    pub inherit: bool,
    pub environment: Seq<(Seq<char>, Seq<char>)>,
}

impl View for CommandPlan {
    type V = CommandPlanView;

    open spec fn view(&self) -> CommandPlanView {
        CommandPlanView {
            program: self.program@,
            arguments: self.arguments.deep_view(),
            directory: self.directory.deep_view(),
            inherit: self.inherit,
            environment: self.environment.deep_view(),
        }
    }
}

/// A copy of a list of variables.
pub fn copy_environment(environment: &Vec<(String, String)>) -> (copy: Vec<(String, String)>)
    ensures
        copy.deep_view() == environment.deep_view(),
{
    let mut copy: Vec<(String, String)> = Vec::new();
    let mut i: usize = 0;
    assert(copy.deep_view() =~= environment.deep_view().take(0));
    while i < environment.len()
        invariant
            i <= environment.len(),
            copy.deep_view() == environment.deep_view().take(i as int),
        decreases environment.len() - i,
    {
        let ghost held = copy.deep_view();
        copy.push((environment[i].0.clone(), environment[i].1.clone()));
        proof {
            assert(copy.deep_view() =~= held.push(environment@[i as int].deep_view()));
            assert(environment.deep_view().take(i + 1) =~= environment.deep_view().take(
                i as int,
            ).push(environment.deep_view()[i as int]));
        }
        i += 1;
    }
    assert(environment.deep_view().take(environment.len() as int) =~= environment.deep_view());
    copy
}

impl CommandPlan {
    /// A command without arguments, in the inherited directory and environment.
    pub fn new(program: &str) -> (plan: CommandPlan)
        ensures
            plan@ == (CommandPlanView {
                program: program@,
                arguments: Seq::empty(),
                directory: None,
                inherit: true,
                environment: Seq::empty(),
            }),
    {
        let plan = CommandPlan {
            program: program.to_string(),
            arguments: Vec::new(),
            directory: None,
            inherit: true,
            environment: Vec::new(),
        };
        assert(plan@.arguments =~= Seq::empty());
        assert(plan@.environment =~= Seq::empty());
        plan
    }

    /// Adds an argument at the end.
    pub fn add_argument(&mut self, argument: &str)
        ensures
            final(self)@ == (CommandPlanView {
                arguments: old(self)@.arguments.push(argument@),
                ..old(self)@
            }),
    {
        self.arguments.push(argument.to_string());
        assert(self@.arguments =~= old(self)@.arguments.push(argument@));
    }

    /// Runs the command in a directory.
    pub fn run_in(&mut self, directory: &str)
        ensures
            final(self)@ == (CommandPlanView { directory: Some(directory@), ..old(self)@ }),
    {
        self.directory = Some(directory.to_string());
    }

    /// Inherits nothing and starts from these entries.
    pub fn run_with_only(&mut self, environment: &Vec<(String, String)>)
        ensures
            final(self)@ == (CommandPlanView {
                inherit: false,
                environment: environment.deep_view(),
                ..old(self)@
            }),
    {
        let list = copy_environment(environment);
        self.inherit = false;
        self.environment = list;
    }

    /// Adds arguments at the end.
    pub fn add_arguments(&mut self, arguments: &Vec<String>)
        ensures
            final(self)@ == (CommandPlanView {
                arguments: old(self)@.arguments + arguments.deep_view(),
                ..old(self)@
            }),
    {
        let ghost base = self@;
        let mut i: usize = 0;
        assert(base.arguments + arguments.deep_view().take(0) =~= base.arguments);
        while i < arguments.len()
            invariant
                i <= arguments.len(),
                self@ == (CommandPlanView {
                    arguments: base.arguments + arguments.deep_view().take(i as int),
                    ..base
                }),
            decreases arguments.len() - i,
        {
            self.add_argument(arguments[i].as_str());
            proof {
                assert(base.arguments + arguments.deep_view().take(i + 1) =~= (base.arguments
                    + arguments.deep_view().take(i as int)).push(arguments[i as int]@));
            }
            i += 1;
        }
        assert(arguments.deep_view().take(arguments.len() as int) =~= arguments.deep_view());
    }

    /// Adds an entry to the environment.
    pub fn add_variable(&mut self, name: &str, value: &str)
        ensures
            final(self)@ == (CommandPlanView {
                environment: old(self)@.environment.push((name@, value@)),
                ..old(self)@
            }),
    {
        self.environment.push((name.to_string(), value.to_string()));
        assert(self@.environment =~= old(self)@.environment.push((name@, value@)));
    }
}

/// What a list of directories becomes in front of an inherited one: the joined
/// directories, and the inherited list as it is where it is not empty.
pub open spec fn prefixed_path(
    joined: Result<Seq<char>, Seq<char>>,
    inherited: Option<Seq<char>>,
    platform: Platform,
) -> Result<Seq<char>, Seq<char>> {
    match joined {
        Err(reason) => Err("无法为捆绑的 Node 构造 PATH："@ + reason),
        Ok(path) => match inherited {
            Some(existing) if existing.len() > 0 => Ok(path + platform.list_separator() + existing),
            _ => Ok(path),
        },
    }
}

/// Puts directories in front of an inherited list. `joined` is what joining the
/// directories gave.
pub fn prefixed_path_env_with(
    joined: Result<String, String>,
    inherited: &Option<String>,
    platform: Platform,
) -> (path: Result<String, String>)
    ensures
        texts(path) == prefixed_path(texts(joined), inherited.deep_view(), platform),
{
    match joined {
        Err(reason) => Err(cat2("无法为捆绑的 Node 构造 PATH：", reason.as_str())),
        Ok(path) => {
            if let Some(existing) = inherited {
                if !existing.as_str().is_empty() {
                    return Ok(
                        cat3(path.as_str(), platform.path_list_separator(), existing.as_str()),
                    );
                }
            }
            Ok(path)
        },
    }
}

/// The inherited list is searched last and unchanged.
pub proof fn law_inherited_path_comes_last(
    path: Seq<char>,
    existing: Seq<char>,
    platform: Platform,
)
    requires
        existing.len() > 0,
    ensures
        ({
            let whole = prefixed_path(Ok(path), Some(existing), platform);
            &&& whole is Ok
            &&& path.is_prefix_of(whole->Ok_0)
            &&& existing.is_suffix_of(whole->Ok_0)
        }),
{
    let whole = prefixed_path(Ok(path), Some(existing), platform)->Ok_0;
    assert(whole.take(path.len() as int) =~= path);
    assert(whole.subrange(whole.len() - existing.len(), whole.len() as int) =~= existing);
}

/// The value that a variable has in a list of entries: that of the last one of its
/// name.
pub open spec fn last_value(environment: Seq<(Seq<char>, Seq<char>)>, name: Seq<char>) -> Option<
    Seq<char>,
>
    decreases environment.len(),
{
    if environment.len() == 0 {
        None
    } else if environment.last().0 == name {
        Some(environment.last().1)
    } else {
        last_value(environment.drop_last(), name)
    }
}

/// An entry behind all others decides the value of its variable, and no other.
pub proof fn lemma_last_value(
    environment: Seq<(Seq<char>, Seq<char>)>,
    entry: (Seq<char>, Seq<char>),
    name: Seq<char>,
)
    ensures
        last_value(environment.push(entry), name) == if entry.0 == name {
            Some(entry.1)
        } else {
            last_value(environment, name)
        },
{
    assert(environment.push(entry).drop_last() =~= environment);
}

/// The directories come first, and behind them, after the separator of the platform,
/// the inherited list where it holds anything. Directories that cannot be joined are
/// an error that says why.
pub proof fn law_directories_come_first(
    joined: Result<Seq<char>, Seq<char>>,
    inherited: Option<Seq<char>>,
    platform: Platform,
)
    ensures
        ({
            let path = prefixed_path(joined, inherited, platform);
            let separator = if platform == Platform::Windows {
                ";"@
            } else {
                ":"@
            };
            &&& joined is Ok <==> path is Ok
            &&& joined is Ok && (inherited is None || inherited->0.len() == 0) ==> path == joined
            &&& joined is Ok && inherited is Some && inherited->0.len() > 0 ==> path->Ok_0
                == joined->Ok_0 + separator + inherited->0
            &&& joined matches Err(reason) ==> path->Err_0 == "无法为捆绑的 Node 构造 PATH："@
                + reason
        }),
{
}

/// What contracts say of a [`CommandPlan`] they say of every part of it.
pub proof fn law_value_of_command_plan(value: CommandPlan)
    ensures
        value@.program == value.program@,
        value@.arguments == value.arguments.deep_view(),
        value@.directory == value.directory.deep_view(),
        value@.inherit == value.inherit,
        value@.environment == value.environment.deep_view(),
{
}

} // verus!
