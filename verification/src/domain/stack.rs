//! Compose stacks: the containers that share a `com.docker.compose.project`
//! label, grouped under the project's name.
use crate::domain::error::DomainError;
use crate::text::{capitalised, uncapitalised, lowercase, str_eq, string_of, to_lowercase_string};
use vstd::prelude::*;
use vstd::string::*;

verus! {

/// The name under which containers without a Compose project are grouped.
pub const STANDALONE: &'static str = "(standalone)";

/// The lifecycle state of a container inside a stack.
#[derive(Debug, Clone, Copy, PartialEq, Eq, Structural)]
pub enum StackContainerState {
    Running,
    Paused,
    Stopped,
    Exited,
    Dead,
    Created,
    Removing,
    Restarting,
}

/// The state that an already lowercased engine state name denotes; every
/// name the engine does not use means `Stopped`.
pub open spec fn stack_state_named(s: Seq<char>) -> StackContainerState {
    if s == "running"@ {
        StackContainerState::Running
    } else if s == "paused"@ {
        StackContainerState::Paused
    } else if s == "exited"@ {
        StackContainerState::Exited
    } else if s == "dead"@ {
        StackContainerState::Dead
    } else if s == "created"@ {
        StackContainerState::Created
    } else if s == "removing"@ {
        StackContainerState::Removing
    } else if s == "restarting"@ {
        StackContainerState::Restarting
    } else {
        StackContainerState::Stopped
    }
}

/// The display name of a state.
pub open spec fn stack_state_label(s: StackContainerState) -> Seq<char> {
    match s {
        StackContainerState::Running => "Running"@,
        StackContainerState::Paused => "Paused"@,
        StackContainerState::Stopped => "Stopped"@,
        StackContainerState::Exited => "Exited"@,
        StackContainerState::Dead => "Dead"@,
        StackContainerState::Created => "Created"@,
        StackContainerState::Removing => "Removing"@,
        StackContainerState::Restarting => "Restarting"@,
    }
}

/// The engine's state words name the states of the same name: a word that
/// names a state other than the fallback `Stopped` is that state's label
/// with a lowercase first letter, and every state's label, so written,
/// names that state.
pub proof fn law_stack_state_words_name_their_states(w: Seq<char>, s: StackContainerState)
    ensures
        stack_state_named(w) != StackContainerState::Stopped ==> stack_state_label(
            stack_state_named(w),
        ) == capitalised(w),
        stack_state_named(uncapitalised(stack_state_label(s))) == s,
{
    reveal_strlit("running");
    reveal_strlit("paused");
    reveal_strlit("exited");
    reveal_strlit("dead");
    reveal_strlit("created");
    reveal_strlit("removing");
    reveal_strlit("restarting");
    reveal_strlit("stopped");
    reveal_strlit("Running");
    reveal_strlit("Paused");
    reveal_strlit("Exited");
    reveal_strlit("Dead");
    reveal_strlit("Created");
    reveal_strlit("Removing");
    reveal_strlit("Restarting");
    reveal_strlit("Stopped");
    assert(capitalised("running"@) =~= "Running"@);
    assert(capitalised("paused"@) =~= "Paused"@);
    assert(capitalised("exited"@) =~= "Exited"@);
    assert(capitalised("dead"@) =~= "Dead"@);
    assert(capitalised("created"@) =~= "Created"@);
    assert(capitalised("removing"@) =~= "Removing"@);
    assert(capitalised("restarting"@) =~= "Restarting"@);
    assert(uncapitalised("Running"@) =~= "running"@);
    assert(uncapitalised("Paused"@) =~= "paused"@);
    assert(uncapitalised("Exited"@) =~= "exited"@);
    assert(uncapitalised("Dead"@) =~= "dead"@);
    assert(uncapitalised("Created"@) =~= "created"@);
    assert(uncapitalised("Removing"@) =~= "removing"@);
    assert(uncapitalised("Restarting"@) =~= "restarting"@);
    assert(uncapitalised("Stopped"@) =~= "stopped"@);
    assert("stopped"@ != "running"@ && "stopped"@ != "paused"@ && "stopped"@ != "exited"@
        && "stopped"@ != "dead"@ && "stopped"@ != "created"@ && "stopped"@ != "removing"@
        && "stopped"@ != "restarting"@) by {
        assert("stopped"@[0] != "running"@[0]);
        assert("stopped"@[0] != "paused"@[0]);
        assert("stopped"@[0] != "exited"@[0]);
        assert("stopped"@[0] != "dead"@[0]);
        assert("stopped"@[0] != "created"@[0]);
        assert("stopped"@[0] != "removing"@[0]);
        assert("stopped"@[0] != "restarting"@[0]);
    }
}

impl StackContainerState {
    /// Whether a container in this state can be started.
    pub open spec fn startable(self) -> bool {
        self is Stopped || self is Exited || self is Created
    }

    /// Whether a container in this state can be stopped.
    pub open spec fn stoppable(self) -> bool {
        self is Running || self is Paused || self is Restarting
    }

    /// The state for an already lowercased state name.
    pub fn from_lowercase(s: &str) -> (r: StackContainerState)
        ensures
            r == stack_state_named(s@),
    {
        if str_eq(s, "running") {
            StackContainerState::Running
        } else if str_eq(s, "paused") {
            StackContainerState::Paused
        } else if str_eq(s, "exited") {
            StackContainerState::Exited
        } else if str_eq(s, "dead") {
            StackContainerState::Dead
        } else if str_eq(s, "created") {
            StackContainerState::Created
        } else if str_eq(s, "removing") {
            StackContainerState::Removing
        } else if str_eq(s, "restarting") {
            StackContainerState::Restarting
        } else {
            StackContainerState::Stopped
        }
    }

    /// Reads a state name in any letter case; an unknown name means `Stopped`.
    pub fn parse(s: &str) -> (r: StackContainerState)
        ensures
            r == stack_state_named(lowercase(s@)),
    {
        let lower = to_lowercase_string(s);
        StackContainerState::from_lowercase(lower.as_str())
    }

    pub fn is_running(&self) -> (r: bool)
        ensures
            r == (*self is Running),
    {
        matches!(self, StackContainerState::Running)
    }

    pub fn can_be_started(&self) -> (r: bool)
        ensures
            r == self.startable(),
    {
        matches!(
            self,
            StackContainerState::Stopped | StackContainerState::Exited | StackContainerState::Created
        )
    }

    pub fn can_be_stopped(&self) -> (r: bool)
        ensures
            r == self.stoppable(),
    {
        matches!(
            self,
            StackContainerState::Running | StackContainerState::Paused
                | StackContainerState::Restarting
        )
    }

    /// The display name of the state.
    pub fn label(&self) -> (r: &'static str)
        ensures
            r@ == stack_state_label(*self),
    {
        match self {
            StackContainerState::Running => "Running",
            StackContainerState::Paused => "Paused",
            StackContainerState::Stopped => "Stopped",
            StackContainerState::Exited => "Exited",
            StackContainerState::Dead => "Dead",
            StackContainerState::Created => "Created",
            StackContainerState::Removing => "Removing",
            StackContainerState::Restarting => "Restarting",
        }
    }
}

impl std::str::FromStr for StackContainerState {
    type Err = std::convert::Infallible;

    fn from_str(s: &str) -> (r: Result<Self, Self::Err>)
        ensures
            r == Ok::<StackContainerState, std::convert::Infallible>(stack_state_named(lowercase(s@))),
    {
        Ok(StackContainerState::parse(s))
    }
}

/// The name of a stack; never empty.
#[derive(Debug, Clone, PartialEq, Eq, Hash)]
pub struct StackName(String);

impl View for StackName {
    type V = Seq<char>;

    closed spec fn view(&self) -> Seq<char> {
        self.0@
    }
}

impl StackName {
    /// Accepts any name but the empty one.
    pub fn new(name: &str) -> (r: Result<StackName, DomainError>)
        ensures
            name@.len() == 0 <==> r is Err,
            r matches Ok(n) ==> n@ == name@,
            r matches Err(e) ==> e is InvalidStackName && e.message_view()
                == "Stack name cannot be empty"@,
    {
        if name.is_empty() {
            return Err(DomainError::InvalidStackName(string_of("Stack name cannot be empty")));
        }
        Ok(StackName(string_of(name)))
    }

    /// The name that gathers the containers of no Compose project.
    pub fn standalone() -> (r: StackName)
        ensures
            r@ == STANDALONE@,
    {
        StackName(string_of(STANDALONE))
    }

    pub fn as_str(&self) -> (r: &str)
        ensures
            r@ == self@,
    {
        self.0.as_str()
    }

    pub fn is_standalone(&self) -> (r: bool)
        ensures
            r == (self@ == STANDALONE@),
    {
        str_eq(self.0.as_str(), STANDALONE)
    }

    /// A copy of the name.
    pub fn duplicate(&self) -> (r: StackName)
        ensures
            r@ == self@,
    {
        StackName(self.0.clone())
    }
}

/// A text without the leading occurrences of `c` (`str::trim_start_matches`
/// with a character pattern).
pub open spec fn without_leading(s: Seq<char>, c: char) -> Seq<char>
    decreases s.len(),
{
    if s.len() > 0 && s[0] == c {
        without_leading(s.drop_first(), c)
    } else {
        s
    }
}

proof fn lemma_without_leading_step(s: Seq<char>, c: char, i: int)
    requires
        0 <= i < s.len(),
        s[i] == c,
    ensures
        without_leading(s.subrange(i, s.len() as int), c) == without_leading(
            s.subrange(i + 1, s.len() as int),
            c,
        ),
{
    assert(s.subrange(i, s.len() as int).drop_first() =~= s.subrange(i + 1, s.len() as int));
}

/// `s` without its leading slashes.
pub fn trim_leading_slashes(s: &str) -> (r: &str)
    ensures
        r@ == without_leading(s@, '/'),
{
    let n = s.unicode_len();
    let mut i: usize = 0;
    assert(s@.subrange(0, n as int) =~= s@);
    while i < n && s.get_char(i) == '/'
        invariant
            n == s@.len(),
            i <= n,
            without_leading(s@, '/') == without_leading(s@.subrange(i as int, n as int), '/'),
        decreases n - i,
    {
        proof {
            lemma_without_leading_step(s@, '/', i as int);
        }
        i = i + 1;
    }
    s.substring_char(i, n)
}

/// A container as it appears in a stack.
#[derive(Debug, Clone, PartialEq, Eq)]
pub struct StackContainer {
    pub id: String,
    pub name: String,
    pub image: String,
    pub state: StackContainerState,
    pub status: String,
    pub ports: String,
}

impl StackContainer {
    pub fn new(
        id: &str,
        name: &str,
        image: &str,
        state: StackContainerState,
        status: &str,
        ports: &str,
    ) -> (r: StackContainer)
        ensures
            r.id@ == id@,
            r.name@ == name@,
            r.image@ == image@,
            r.state == state,
            r.status@ == status@,
            r.ports@ == ports@,
    {
        StackContainer {
            id: string_of(id),
            name: string_of(name),
            image: string_of(image),
            state,
            status: string_of(status),
            ports: string_of(ports),
        }
    }

    pub fn id(&self) -> (r: &str)
        ensures
            r@ == self.id@,
    {
        self.id.as_str()
    }

    pub fn name(&self) -> (r: &str)
        ensures
            r@ == self.name@,
    {
        self.name.as_str()
    }

    pub fn image(&self) -> (r: &str)
        ensures
            r@ == self.image@,
    {
        self.image.as_str()
    }

    pub fn state(&self) -> (r: StackContainerState)
        ensures
            r == self.state,
    {
        self.state
    }

    pub fn status(&self) -> (r: &str)
        ensures
            r@ == self.status@,
    {
        self.status.as_str()
    }

    pub fn ports(&self) -> (r: &str)
        ensures
            r@ == self.ports@,
    {
        self.ports.as_str()
    }

    /// The name without the leading `/` the engine puts before it.
    pub fn display_name(&self) -> (r: &str)
        ensures
            r@ == without_leading(self.name@, '/'),
    {
        trim_leading_slashes(self.name.as_str())
    }

    pub fn is_running(&self) -> (r: bool)
        ensures
            r == (self.state is Running),
    {
        self.state.is_running()
    }

    pub fn can_be_started(&self) -> (r: bool)
        ensures
            r == self.state.startable(),
    {
        self.state.can_be_started()
    }

    pub fn can_be_stopped(&self) -> (r: bool)
        ensures
            r == self.state.stoppable(),
    {
        self.state.can_be_stopped()
    }

    /// A copy of the container.
    pub fn duplicate(&self) -> (r: StackContainer)
        ensures
            r.id@ == self.id@,
            r.name@ == self.name@,
            r.image@ == self.image@,
            r.state == self.state,
            r.status@ == self.status@,
            r.ports@ == self.ports@,
    {
        StackContainer {
            id: self.id.clone(),
            name: self.name.clone(),
            image: self.image.clone(),
            state: self.state,
            status: self.status.clone(),
            ports: self.ports.clone(),
        }
    }
}

/// How many of the containers are running.
pub open spec fn running_count_of(cs: Seq<StackContainer>) -> nat
    decreases cs.len(),
{
    if cs.len() == 0 {
        0
    } else {
        running_count_of(cs.drop_last()) + if cs.last().state is Running {
            1nat
        } else {
            0nat
        }
    }
}

/// A Compose project (or the standalone group) with its containers.
#[derive(Debug, Clone)]
pub struct Stack {
    pub name: StackName,
    pub containers: Vec<StackContainer>,
}

impl Stack {
    pub fn new(name: StackName, containers: Vec<StackContainer>) -> (r: Stack)
        ensures
            r.name == name,
            r.containers@ == containers@,
    {
        Stack { name, containers }
    }

    pub fn name(&self) -> (r: &StackName)
        ensures
            *r == self.name,
    {
        &self.name
    }

    pub fn containers(&self) -> (r: &Vec<StackContainer>)
        ensures
            r@ == self.containers@,
    {
        &self.containers
    }

    pub fn container_count(&self) -> (r: usize)
        ensures
            r == self.containers@.len(),
    {
        self.containers.len()
    }

    pub fn running_count(&self) -> (r: usize)
        ensures
            r == running_count_of(self.containers@),
    {
        let mut count: usize = 0;
        let mut i: usize = 0;
        while i < self.containers.len()
            invariant
                i <= self.containers@.len(),
                count == running_count_of(self.containers@.subrange(0, i as int)),
                count <= i,
            decreases self.containers@.len() - i,
        {
            assert(self.containers@.subrange(0, i + 1).drop_last() =~= self.containers@.subrange(
                0,
                i as int,
            ));
            if self.containers[i].is_running() {
                count = count + 1;
            }
            i = i + 1;
        }
        assert(self.containers@.subrange(0, i as int) =~= self.containers@);
        count
    }

    /// The identifiers of the containers, in order.
    pub fn container_ids(&self) -> (r: Vec<String>)
        ensures
            r@.len() == self.containers@.len(),
            forall|k: int| 0 <= k < r@.len() ==> #[trigger] r@[k]@ == self.containers@[k].id@,
    {
        let mut ids: Vec<String> = Vec::new();
        let mut i: usize = 0;
        while i < self.containers.len()
            invariant
                i <= self.containers@.len(),
                ids@.len() == i,
                forall|k: int| 0 <= k < i ==> #[trigger] ids@[k]@ == self.containers@[k].id@,
            decreases self.containers@.len() - i,
        {
            ids.push(self.containers[i].id.clone());
            i = i + 1;
        }
        ids
    }
}

} // verus!
