//! Capabilities an agent offers, and which of them each task type needs.

use vstd::prelude::*;

verus! {

#[derive(Debug, Clone, Copy, PartialEq, Eq, Structural, Hash)]
pub enum Capability {
    Docker,
    Podman,
    LocalCommand,
    SSH,
    SFTP,
    ServerCreate,
    ServerStart,
    ServerStop,
    ServerRestart,
    ServerDelete,
    ServerLogs,
    ServerCommand,
    BackupCreate,
    BackupRestore,
    Metrics,
}

/// The name of a capability as it is shown and sent.
pub open spec fn spec_capability_name(c: Capability) -> Seq<char> {
    match c {
        Capability::Docker => "docker"@,
        Capability::Podman => "podman"@,
        Capability::LocalCommand => "local_command"@,
        Capability::SSH => "ssh"@,
        Capability::SFTP => "sftp"@,
        Capability::ServerCreate => "server_create"@,
        Capability::ServerStart => "server_start"@,
        Capability::ServerStop => "server_stop"@,
        Capability::ServerRestart => "server_restart"@,
        Capability::ServerDelete => "server_delete"@,
        Capability::ServerLogs => "server_logs"@,
        Capability::ServerCommand => "server_command"@,
        Capability::BackupCreate => "backup_create"@,
        Capability::BackupRestore => "backup_restore"@,
        Capability::Metrics => "metrics"@,
    }
}

impl Capability {
    /// The capability's name, such as `server_start`.
    pub fn to_string(&self) -> (s: String)
        ensures
            s@ == spec_capability_name(*self),
    {
        let name = match self {
            Capability::Docker => "docker",
            Capability::Podman => "podman",
            Capability::LocalCommand => "local_command",
            Capability::SSH => "ssh",
            Capability::SFTP => "sftp",
            Capability::ServerCreate => "server_create",
            Capability::ServerStart => "server_start",
            Capability::ServerStop => "server_stop",
            Capability::ServerRestart => "server_restart",
            Capability::ServerDelete => "server_delete",
            Capability::ServerLogs => "server_logs",
            Capability::ServerCommand => "server_command",
            Capability::BackupCreate => "backup_create",
            Capability::BackupRestore => "backup_restore",
            Capability::Metrics => "metrics",
        };
        String::from_str(name)
    }
}

/// The capabilities an agent has registered, each once.
pub struct CapabilityRegistry {
    capabilities: Vec<Capability>,
}

impl View for CapabilityRegistry {
    type V = Set<Capability>;

    closed spec fn view(&self) -> Set<Capability> {
        self.capabilities@.to_set()
    }
}

impl CapabilityRegistry {
    /// No capability appears twice.
    pub closed spec fn wf(&self) -> bool {
        self.capabilities@.no_duplicates()
    }

    pub fn new() -> (r: Self)
        ensures
            r.wf(),
            r@ == Set::<Capability>::empty(),
    {
        let r = CapabilityRegistry { capabilities: Vec::new() };
        assert(r@ =~= Set::<Capability>::empty());
        r
    }

    fn position(&self, cap: &Capability) -> (r: Option<usize>)
        ensures
            match r {
                Some(i) => i < self.capabilities.len() && self.capabilities@[i as int] == *cap,
                None => !self.capabilities@.contains(*cap),
            },
    {
        let mut i: usize = 0;
        while i < self.capabilities.len()
            invariant
                i <= self.capabilities.len(),
                forall|j: int| 0 <= j < i ==> self.capabilities@[j] != *cap,
            decreases self.capabilities.len() - i,
        {
            if self.capabilities[i] == *cap {
                return Some(i);
            }
            i = i + 1;
        }
        None
    }

    pub fn register(&mut self, cap: Capability)
        requires
            old(self).wf(),
        ensures
            final(self).wf(),
            final(self)@ == old(self)@.insert(cap),
    {
        if self.position(&cap).is_none() {
            self.capabilities.push(cap);
            assert(self@ =~= old(self)@.insert(cap)) by {
                assert forall|c: Capability| self@.contains(c) <==> old(self)@.insert(cap).contains(c) by {
                    if c != cap && self@.contains(c) {
                        let j = choose|j: int| 0 <= j < self.capabilities.len() && self.capabilities@[j] == c;
                        assert(old(self).capabilities@[j] == c);
                    }
                    if old(self)@.contains(c) {
                        let j = choose|j: int| 0 <= j < old(self).capabilities.len() && old(self).capabilities@[j] == c;
                        assert(self.capabilities@[j] == c);
                    }
                    if c == cap {
                        assert(self.capabilities@[self.capabilities.len() - 1] == c);
                    }
                }
            }
        } else {
            assert(self@ =~= old(self)@.insert(cap));
        }
    }

    pub fn remove(&mut self, cap: &Capability)
        requires
            old(self).wf(),
        ensures
            final(self).wf(),
            final(self)@ == old(self)@.remove(*cap),
    {
        match self.position(cap) {
            Some(i) => {
                let ghost before = self.capabilities@;
                self.capabilities.remove(i);
                assert(self.capabilities@ =~= before.remove(i as int));
                assert(self@ =~= old(self)@.remove(*cap)) by {
                    assert forall|c: Capability| self@.contains(c) <==> old(self)@.remove(*cap).contains(c) by {
                        if self@.contains(c) {
                            let j = choose|j: int| 0 <= j < self.capabilities.len() && self.capabilities@[j] == c;
                            if j < i {
                                assert(before[j] == c);
                            } else {
                                assert(before[j + 1] == c);
                            }
                        }
                        if old(self)@.contains(c) && c != *cap {
                            let j = choose|j: int| 0 <= j < before.len() && before[j] == c;
                            if j < i {
                                assert(self.capabilities@[j] == c);
                            } else {
                                assert(self.capabilities@[j - 1] == c);
                            }
                        }
                    }
                }
            },
            None => {
                assert(self@ =~= old(self)@.remove(*cap));
            },
        }
    }

    pub fn has(&self, cap: &Capability) -> (b: bool)
        ensures
            b == self@.contains(*cap),
    {
        self.position(cap).is_some()
    }

    /// Whether every capability in `required` is registered.
    pub fn has_all(&self, required: &[Capability]) -> (b: bool)
        ensures
            b == (forall|i: int| 0 <= i < required@.len() ==> self@.contains(#[trigger] required@[i])),
    {
        let mut i: usize = 0;
        while i < required.len()
            invariant
                i <= required@.len(),
                forall|j: int| 0 <= j < i ==> self@.contains(#[trigger] required@[j]),
            decreases required@.len() - i,
        {
            if !self.has(&required[i]) {
                return false;
            }
            i = i + 1;
        }
        true
    }

    /// The names of the registered capabilities, each once, in no
    /// particular order.
    pub fn to_string_list(&self) -> (r: Vec<String>)
        requires
            self.wf(),
        ensures
            exists|order: Seq<Capability>| {
                &&& order.no_duplicates()
                &&& order.to_set() == self@
                &&& r.len() == order.len()
                &&& forall|i: int| 0 <= i < r.len() ==> (#[trigger] r@[i])@ == spec_capability_name(order[i])
            },
    {
        let mut out: Vec<String> = Vec::new();
        let mut i: usize = 0;
        while i < self.capabilities.len()
            invariant
                i <= self.capabilities.len(),
                out.len() == i,
                forall|j: int| 0 <= j < i ==> (#[trigger] out@[j])@ == spec_capability_name(self.capabilities@[j]),
            decreases self.capabilities.len() - i,
        {
            out.push(self.capabilities[i].to_string());
            i = i + 1;
        }
        out
    }

    /// The registered capabilities, each once, in no particular order.
    pub fn iter(&self) -> (r: Vec<Capability>)
        requires
            self.wf(),
        ensures
            r@.to_set() == self@,
            r@.no_duplicates(),
    {
        self.capabilities.clone()
    }
}

impl Default for CapabilityRegistry {
    fn default() -> (r: Self)
        ensures
            r.wf(),
            r@ == Set::<Capability>::empty(),
    {
        Self::new()
    }
}

/// The capabilities a task type needs; unknown task types need none.
pub open spec fn spec_required_for(task_type: Seq<char>) -> Seq<Capability> {
    if task_type == "server.create"@ { seq![Capability::ServerCreate] }
    else if task_type == "server.start"@ { seq![Capability::ServerStart] }
    else if task_type == "server.stop"@ { seq![Capability::ServerStop] }
    else if task_type == "server.restart"@ { seq![Capability::ServerRestart] }
    else if task_type == "server.delete"@ { seq![Capability::ServerDelete] }
    else if task_type == "server.logs"@ { seq![Capability::ServerLogs] }
    else if task_type == "server.command"@ { seq![Capability::ServerCommand] }
    else if task_type == "backup.create"@ { seq![Capability::BackupCreate] }
    else if task_type == "backup.restore"@ { seq![Capability::BackupRestore] }
    else if task_type == "ssh.execute"@ { seq![Capability::SSH] }
    else if task_type == "sftp.upload"@ { seq![Capability::SFTP] }
    else if task_type == "sftp.download"@ { seq![Capability::SFTP] }
    else if task_type == "metrics.report"@ { seq![Capability::Metrics] }
    else { seq![] }
}

fn one(c: Capability) -> (v: Vec<Capability>)
    ensures
        v@ == seq![c],
{
    let mut v = Vec::new();
    v.push(c);
    v
}

/// The capabilities a task type needs.
pub fn required_for(task_type: &str) -> (r: Vec<Capability>)
    ensures
        r@ == spec_required_for(task_type@),
{
    let t = String::from_str(task_type);
    if t == String::from_str("server.create") { one(Capability::ServerCreate) }
    else if t == String::from_str("server.start") { one(Capability::ServerStart) }
    else if t == String::from_str("server.stop") { one(Capability::ServerStop) }
    else if t == String::from_str("server.restart") { one(Capability::ServerRestart) }
    else if t == String::from_str("server.delete") { one(Capability::ServerDelete) }
    else if t == String::from_str("server.logs") { one(Capability::ServerLogs) }
    else if t == String::from_str("server.command") { one(Capability::ServerCommand) }
    else if t == String::from_str("backup.create") { one(Capability::BackupCreate) }
    else if t == String::from_str("backup.restore") { one(Capability::BackupRestore) }
    else if t == String::from_str("ssh.execute") { one(Capability::SSH) }
    else if t == String::from_str("sftp.upload") { one(Capability::SFTP) }
    else if t == String::from_str("sftp.download") { one(Capability::SFTP) }
    else if t == String::from_str("metrics.report") { one(Capability::Metrics) }
    else { Vec::new() }
}

/// Whether an agent can handle a task type: the type needs at least one
/// capability, and the agent has every one it needs.
pub open spec fn spec_can_handle(registered: Set<Capability>, task_type: Seq<char>) -> bool {
    let required = spec_required_for(task_type);
    required.len() > 0 && forall|i: int| 0 <= i < required.len() ==> registered.contains(#[trigger] required[i])
}

pub fn can_handle(registry: &CapabilityRegistry, task_type: &str) -> (b: bool)
    ensures
        b == spec_can_handle(registry@, task_type@),
{
    let required = required_for(task_type);
    required.len() != 0 && registry.has_all(required.as_slice())
}

/// Law: a task type no capability is listed for is never handled, whatever
/// the agent has registered.
pub proof fn law_unknown_task_not_handled(registered: Set<Capability>, task_type: Seq<char>)
    requires
        spec_required_for(task_type).len() == 0,
    ensures
        !spec_can_handle(registered, task_type),
{
}

/// Law: an agent that has registered the capability a known task type needs
/// can handle it, and one that has not cannot.
pub proof fn law_handles_with_required(registered: Set<Capability>, task_type: Seq<char>)
    requires
        spec_required_for(task_type).len() == 1,
    ensures
        spec_can_handle(registered, task_type) <==> registered.contains(spec_required_for(task_type)[0]),
{
}

/// Law: distinct capabilities have distinct names.
pub proof fn law_names_distinct(a: Capability, b: Capability)
    requires
        a != b,
    ensures
        spec_capability_name(a) != spec_capability_name(b),
{
    reveal_strlit("docker");
    reveal_strlit("podman");
    reveal_strlit("local_command");
    reveal_strlit("ssh");
    reveal_strlit("sftp");
    reveal_strlit("server_create");
    reveal_strlit("server_start");
    reveal_strlit("server_stop");
    reveal_strlit("server_restart");
    reveal_strlit("server_delete");
    reveal_strlit("server_logs");
    reveal_strlit("server_command");
    reveal_strlit("backup_create");
    reveal_strlit("backup_restore");
    reveal_strlit("metrics");
    assert(spec_capability_name(a) != spec_capability_name(b)) by {
        if spec_capability_name(a) == spec_capability_name(b) {
            assert(spec_capability_name(a).len() == spec_capability_name(b).len());
            assert(spec_capability_name(a)[0] == spec_capability_name(b)[0]);
            assert(spec_capability_name(a)[1] == spec_capability_name(b)[1]);
            assert(spec_capability_name(a).len() > 7 ==> spec_capability_name(a)[7] == spec_capability_name(b)[7]);
            assert(spec_capability_name(a).len() > 8 ==> spec_capability_name(a)[8] == spec_capability_name(b)[8]);
            assert(spec_capability_name(a).len() > 9 ==> spec_capability_name(a)[9] == spec_capability_name(b)[9]);
        }
    }
}

/// A task type's name read as a capability name: its dots become
/// underscores.
pub open spec fn spec_underscored(task_type: Seq<char>) -> Seq<char> {
    task_type.map_values(|c: char| if c == '.' { '_' } else { c })
}

/// Whether `name` names the task type: it is the whole type with its dot
/// made an underscore (`backup.restore` and `backup_restore`), or the part
/// of the type before its dot (`ssh.execute` and `ssh`).
pub open spec fn spec_names_task(name: Seq<char>, task_type: Seq<char>) -> bool {
    ||| name == spec_underscored(task_type)
    ||| name.len() < task_type.len() && task_type[name.len() as int] == '.' && name == task_type.take(name.len() as int)
}

proof fn lemma_names(name: Seq<char>, task_type: Seq<char>, whole: bool)
    requires
        whole ==> name.len() == task_type.len() && forall|i: int| 0 <= i < task_type.len() ==> name[i] == (if task_type[i] == '.' { '_' } else { task_type[i] }),
        !whole ==> name.len() < task_type.len() && task_type[name.len() as int] == '.' && forall|i: int| 0 <= i < name.len() ==> name[i] == task_type[i],
    ensures
        spec_names_task(name, task_type),
{
    if whole {
        assert(name =~= spec_underscored(task_type));
    } else {
        assert(name =~= task_type.take(name.len() as int));
    }
}

/// Law: a task type needs at most one capability, and the capability it
/// needs is the one named after it: `backup.restore` needs
/// `backup_restore`, `ssh.execute` needs `ssh`, and so on.
pub proof fn law_required_capability_named_after_task(task_type: Seq<char>)
    ensures
        spec_required_for(task_type).len() <= 1,
        forall|i: int| 0 <= i < spec_required_for(task_type).len()
            ==> spec_names_task(spec_capability_name(#[trigger] spec_required_for(task_type)[i]), task_type),
{
    let r = spec_required_for(task_type);
    if r.len() == 1 {
        let c = r[0];
        let n = spec_capability_name(c);
        if task_type == "server.create"@ { reveal_strlit("server.create"); reveal_strlit("server_create"); lemma_names(n, task_type, true); }
        else if task_type == "server.start"@ { reveal_strlit("server.start"); reveal_strlit("server_start"); lemma_names(n, task_type, true); }
        else if task_type == "server.stop"@ { reveal_strlit("server.stop"); reveal_strlit("server_stop"); lemma_names(n, task_type, true); }
        else if task_type == "server.restart"@ { reveal_strlit("server.restart"); reveal_strlit("server_restart"); lemma_names(n, task_type, true); }
        else if task_type == "server.delete"@ { reveal_strlit("server.delete"); reveal_strlit("server_delete"); lemma_names(n, task_type, true); }
        else if task_type == "server.logs"@ { reveal_strlit("server.logs"); reveal_strlit("server_logs"); lemma_names(n, task_type, true); }
        else if task_type == "server.command"@ { reveal_strlit("server.command"); reveal_strlit("server_command"); lemma_names(n, task_type, true); }
        else if task_type == "backup.create"@ { reveal_strlit("backup.create"); reveal_strlit("backup_create"); lemma_names(n, task_type, true); }
        else if task_type == "backup.restore"@ { reveal_strlit("backup.restore"); reveal_strlit("backup_restore"); lemma_names(n, task_type, true); }
        else if task_type == "ssh.execute"@ { reveal_strlit("ssh.execute"); reveal_strlit("ssh"); lemma_names(n, task_type, false); }
        else if task_type == "sftp.upload"@ { reveal_strlit("sftp.upload"); reveal_strlit("sftp"); lemma_names(n, task_type, false); }
        else if task_type == "sftp.download"@ { reveal_strlit("sftp.download"); reveal_strlit("sftp"); lemma_names(n, task_type, false); }
        else if task_type == "metrics.report"@ { reveal_strlit("metrics.report"); reveal_strlit("metrics"); lemma_names(n, task_type, false); }
    }
}

pub(crate) proof fn lemma_text_differs(a: Seq<char>, b: Seq<char>, i: int)
    requires
        0 <= i < a.len(),
        i < b.len(),
        a[i] != b[i],
    ensures
        a != b,
{
}

/// Law: each task type the agent knows needs exactly one capability:
/// the server tasks (create, start, stop, restart, delete, logs, command),
/// the backup tasks (create, restore), `ssh.execute`, the two `sftp`
/// transfers and `metrics.report`.
pub proof fn law_known_task_types_need_one()
    ensures
        spec_required_for("server.create"@).len() == 1,
        spec_required_for("server.start"@).len() == 1,
        spec_required_for("server.stop"@).len() == 1,
        spec_required_for("server.restart"@).len() == 1,
        spec_required_for("server.delete"@).len() == 1,
        spec_required_for("server.logs"@).len() == 1,
        spec_required_for("server.command"@).len() == 1,
        spec_required_for("backup.create"@).len() == 1,
        spec_required_for("backup.restore"@).len() == 1,
        spec_required_for("ssh.execute"@).len() == 1,
        spec_required_for("sftp.upload"@).len() == 1,
        spec_required_for("sftp.download"@).len() == 1,
        spec_required_for("metrics.report"@).len() == 1,
{
    reveal_strlit("server.create");
    reveal_strlit("server.start");
    reveal_strlit("server.stop");
    reveal_strlit("server.restart");
    reveal_strlit("server.delete");
    reveal_strlit("server.logs");
    reveal_strlit("server.command");
    reveal_strlit("backup.create");
    reveal_strlit("backup.restore");
    reveal_strlit("ssh.execute");
    reveal_strlit("sftp.upload");
    reveal_strlit("sftp.download");
    reveal_strlit("metrics.report");
    lemma_text_differs("server.delete"@, "server.create"@, 7);
    lemma_text_differs("server.logs"@, "server.stop"@, 7);
    lemma_text_differs("server.command"@, "server.restart"@, 7);
    lemma_text_differs("backup.create"@, "server.create"@, 0);
    lemma_text_differs("backup.create"@, "server.delete"@, 0);
    lemma_text_differs("backup.restore"@, "server.restart"@, 0);
    lemma_text_differs("backup.restore"@, "server.command"@, 0);
    lemma_text_differs("ssh.execute"@, "server.stop"@, 1);
    lemma_text_differs("ssh.execute"@, "server.logs"@, 1);
    lemma_text_differs("sftp.upload"@, "server.stop"@, 1);
    lemma_text_differs("sftp.upload"@, "server.logs"@, 1);
    lemma_text_differs("sftp.upload"@, "ssh.execute"@, 1);
    lemma_text_differs("sftp.download"@, "server.create"@, 1);
    lemma_text_differs("sftp.download"@, "server.delete"@, 1);
    lemma_text_differs("sftp.download"@, "backup.create"@, 0);
    lemma_text_differs("metrics.report"@, "server.restart"@, 0);
    lemma_text_differs("metrics.report"@, "server.command"@, 0);
    lemma_text_differs("metrics.report"@, "backup.restore"@, 0);
}

/// A capability name read as a task type: its underscores become dots.
pub open spec fn spec_dotted(name: Seq<char>) -> Seq<char> {
    name.map_values(|c: char| if c == '_' { '.' } else { c })
}

/// Law: each server and backup capability is what the task type of the
/// same name needs: `backup_restore` for `backup.restore`, and so on.
pub proof fn law_task_of_capability_needs_it(c: Capability)
    requires
        c != Capability::Docker && c != Capability::Podman && c != Capability::LocalCommand && c != Capability::SSH
            && c != Capability::SFTP && c != Capability::Metrics,
    ensures
        spec_required_for(spec_dotted(spec_capability_name(c))) == seq![c],
{
    reveal_strlit("server.create");
    reveal_strlit("server.start");
    reveal_strlit("server.stop");
    reveal_strlit("server.restart");
    reveal_strlit("server.delete");
    reveal_strlit("server.logs");
    reveal_strlit("server.command");
    reveal_strlit("backup.create");
    reveal_strlit("backup.restore");
    reveal_strlit("ssh.execute");
    reveal_strlit("sftp.upload");
    reveal_strlit("sftp.download");
    reveal_strlit("metrics.report");
    match c {
        Capability::ServerCreate => {
            reveal_strlit("server_create");
            reveal_strlit("server.create");
            assert(spec_dotted(spec_capability_name(c)) =~= "server.create"@);
            assert(spec_required_for("server.create"@) =~= seq![c]);
        },
        Capability::ServerStart => {
            reveal_strlit("server_start");
            reveal_strlit("server.start");
            assert(spec_dotted(spec_capability_name(c)) =~= "server.start"@);
            assert(spec_required_for("server.start"@) =~= seq![c]);
        },
        Capability::ServerStop => {
            reveal_strlit("server_stop");
            reveal_strlit("server.stop");
            assert(spec_dotted(spec_capability_name(c)) =~= "server.stop"@);
            assert(spec_required_for("server.stop"@) =~= seq![c]);
        },
        Capability::ServerRestart => {
            reveal_strlit("server_restart");
            reveal_strlit("server.restart");
            assert(spec_dotted(spec_capability_name(c)) =~= "server.restart"@);
            assert(spec_required_for("server.restart"@) =~= seq![c]);
        },
        Capability::ServerDelete => {
            reveal_strlit("server_delete");
            reveal_strlit("server.delete");
            assert(spec_dotted(spec_capability_name(c)) =~= "server.delete"@);
            lemma_text_differs("server.delete"@, "server.create"@, 7);
            assert(spec_required_for("server.delete"@) =~= seq![c]);
        },
        Capability::ServerLogs => {
            reveal_strlit("server_logs");
            reveal_strlit("server.logs");
            assert(spec_dotted(spec_capability_name(c)) =~= "server.logs"@);
            lemma_text_differs("server.logs"@, "server.stop"@, 7);
            assert(spec_required_for("server.logs"@) =~= seq![c]);
        },
        Capability::ServerCommand => {
            reveal_strlit("server_command");
            reveal_strlit("server.command");
            assert(spec_dotted(spec_capability_name(c)) =~= "server.command"@);
            lemma_text_differs("server.command"@, "server.restart"@, 7);
            assert(spec_required_for("server.command"@) =~= seq![c]);
        },
        Capability::BackupCreate => {
            reveal_strlit("backup_create");
            reveal_strlit("backup.create");
            assert(spec_dotted(spec_capability_name(c)) =~= "backup.create"@);
            lemma_text_differs("backup.create"@, "server.create"@, 0);
            lemma_text_differs("backup.create"@, "server.delete"@, 0);
            assert(spec_required_for("backup.create"@) =~= seq![c]);
        },
        Capability::BackupRestore => {
            reveal_strlit("backup_restore");
            reveal_strlit("backup.restore");
            assert(spec_dotted(spec_capability_name(c)) =~= "backup.restore"@);
            lemma_text_differs("backup.restore"@, "server.restart"@, 0);
            lemma_text_differs("backup.restore"@, "server.command"@, 0);
            assert(spec_required_for("backup.restore"@) =~= seq![c]);
        },
        _ => {},
    }
}

} // verus!
