//! Settings, quick tasks, chat history and the queue of scheduled emails:
//! their types and the rules that govern them. Reading and writing the
//! settings file and the OS keychain is the caller's business; this module
//! decides what is read back and what is written.
use vstd::prelude::*;

use crate::text::{cat3, has_sub, json_array, lemma_json_array_injective, owned, str_contains, str_eq};

verus! {

// ── Types ──────────────────────────────────────────────────────────────────

/// Which model provider to use and the credentials for each service.
pub struct ProviderConfig {
    pub provider: String,
    pub gemini_key: String,
    pub gemini_extra_keys: Vec<String>,
    pub gemini_model: String,
    pub groq_key: String,
    pub groq_extra_keys: Vec<String>,
    pub groq_model: String,
    pub gmail_user: String,
    pub gmail_pass: String,
}

/// The mathematical value of a [`ProviderConfig`].
pub struct ConfigView {
    pub provider: Seq<char>,
    pub gemini_key: Seq<char>,
    pub gemini_extra_keys: Seq<Seq<char>>,
    pub gemini_model: Seq<char>,
    pub groq_key: Seq<char>,
    pub groq_extra_keys: Seq<Seq<char>>,
    pub groq_model: Seq<char>,
    pub gmail_user: Seq<char>,
    pub gmail_pass: Seq<char>,
}

impl View for ProviderConfig {
    type V = ConfigView;

    open spec fn view(&self) -> ConfigView {
        ConfigView {
            provider: self.provider@,
            gemini_key: self.gemini_key@,
            gemini_extra_keys: self.gemini_extra_keys.deep_view(),
            gemini_model: self.gemini_model@,
            groq_key: self.groq_key@,
            groq_extra_keys: self.groq_extra_keys.deep_view(),
            groq_model: self.groq_model@,
            gmail_user: self.gmail_user@,
            gmail_pass: self.gmail_pass@,
        }
    }
}

fn copy_strings(v: &Vec<String>) -> (r: Vec<String>)
    ensures
        r.deep_view() == v.deep_view(),
{
    let mut out: Vec<String> = Vec::new();
    let mut i: usize = 0;
    while i < v.len()
        invariant
            i <= v@.len(),
            out.deep_view() == v.deep_view().take(i as int),
        decreases v@.len() - i,
    {
        let ghost prev = out.deep_view();
        out.push(v[i].clone());
        assert(v.deep_view()[i as int] == v@[i as int]@);
        assert(out.deep_view() =~= prev.push(v@[i as int]@));
        assert(out.deep_view() =~= v.deep_view().take(i + 1));
        i = i + 1;
    }
    assert(v.deep_view().take(v@.len() as int) =~= v.deep_view());
    out
}

impl ProviderConfig {
    /// A configuration with every field empty.
    pub fn empty() -> (r: Self)
        ensures
            r@ == (ConfigView {
                provider: Seq::empty(),
                gemini_key: Seq::empty(),
                gemini_extra_keys: Seq::empty(),
                gemini_model: Seq::empty(),
                groq_key: Seq::empty(),
                groq_extra_keys: Seq::empty(),
                groq_model: Seq::empty(),
                gmail_user: Seq::empty(),
                gmail_pass: Seq::empty(),
            }),
    {
        let r = ProviderConfig {
            provider: String::new(),
            gemini_key: String::new(),
            gemini_extra_keys: Vec::new(),
            gemini_model: String::new(),
            groq_key: String::new(),
            groq_extra_keys: Vec::new(),
            groq_model: String::new(),
            gmail_user: String::new(),
            gmail_pass: String::new(),
        };
        assert(r.gemini_extra_keys.deep_view() =~= Seq::<Seq<char>>::empty());
        assert(r.groq_extra_keys.deep_view() =~= Seq::<Seq<char>>::empty());
        r
    }

    /// A field-by-field copy.
    pub fn duplicate(&self) -> (r: Self)
        ensures
            r@ == self@,
    {
        ProviderConfig {
            provider: self.provider.clone(),
            gemini_key: self.gemini_key.clone(),
            gemini_extra_keys: copy_strings(&self.gemini_extra_keys),
            gemini_model: self.gemini_model.clone(),
            groq_key: self.groq_key.clone(),
            groq_extra_keys: copy_strings(&self.groq_extra_keys),
            groq_model: self.groq_model.clone(),
            gmail_user: self.gmail_user.clone(),
            gmail_pass: self.gmail_pass.clone(),
        }
    }
}

/// A quick-access task shown on the panel.
pub struct Task {
    pub id: String,
    pub name: String,
    pub instruction: String,
    pub icon: String,
}

/// The mathematical value of a [`Task`].
pub struct TaskView {
    pub id: Seq<char>,
    pub name: Seq<char>,
    pub instruction: Seq<char>,
    pub icon: Seq<char>,
}

impl View for Task {
    type V = TaskView;

    open spec fn view(&self) -> TaskView {
        TaskView { id: self.id@, name: self.name@, instruction: self.instruction@, icon: self.icon@ }
    }
}

impl Task {
    /// A field-by-field copy.
    pub fn duplicate(&self) -> (r: Self)
        ensures
            r@ == self@,
    {
        Task {
            id: self.id.clone(),
            name: self.name.clone(),
            instruction: self.instruction.clone(),
            icon: self.icon.clone(),
        }
    }
}

/// The views of a task list.
pub open spec fn tasks_view(v: Seq<Task>) -> Seq<TaskView> {
    v.map_values(|t: Task| t@)
}

/// One message of the chat history.
pub struct ChatMessage {
    pub role: String,
    pub content: String,
}

impl View for ChatMessage {
    type V = (Seq<char>, Seq<char>);

    open spec fn view(&self) -> (Seq<char>, Seq<char>) {
        (self.role@, self.content@)
    }
}

impl ChatMessage {
    /// A field-by-field copy.
    pub fn duplicate(&self) -> (r: Self)
        ensures
            r@ == self@,
    {
        ChatMessage { role: self.role.clone(), content: self.content.clone() }
    }
}

/// The views of a message list.
pub open spec fn messages_view(v: Seq<ChatMessage>) -> Seq<(Seq<char>, Seq<char>)> {
    v.map_values(|m: ChatMessage| m@)
}

// ── Default tasks ──────────────────────────────────────────────────────────

/// The tasks the panel starts with.
pub open spec fn default_task_views() -> Seq<TaskView> {
    seq![
        TaskView { id: "1"@, name: "Chrome"@, icon: "🌐"@, instruction: "Open Google Chrome"@ },
        TaskView { id: "2"@, name: "Notepad"@, icon: "📝"@, instruction: "Open Notepad"@ },
        TaskView {
            id: "3"@,
            name: "25min Timer"@,
            icon: "⏱"@,
            instruction: "Set a 25 minute focus timer"@,
        },
        TaskView {
            id: "4"@,
            name: "5min Break"@,
            icon: "☕"@,
            instruction: "Set a 5 minute break timer"@,
        },
        TaskView { id: "5"@, name: "My IP"@, icon: "🔌"@, instruction: "Show my public IP address"@ },
        TaskView {
            id: "6"@,
            name: "Screenshot"@,
            icon: "📸"@,
            instruction: "Take a screenshot and tell me what's on my screen"@,
        },
    ]
}

fn task(id: &str, name: &str, icon: &str, instruction: &str) -> (r: Task)
    ensures
        r@ == (TaskView { id: id@, name: name@, icon: icon@, instruction: instruction@ }),
{
    Task { id: owned(id), name: owned(name), instruction: owned(instruction), icon: owned(icon) }
}

/// The tasks the panel starts with.
pub fn default_tasks() -> (r: Vec<Task>)
    ensures
        tasks_view(r@) == default_task_views(),
{
    let mut v: Vec<Task> = Vec::new();
    v.push(task("1", "Chrome", "🌐", "Open Google Chrome"));
    v.push(task("2", "Notepad", "📝", "Open Notepad"));
    v.push(task("3", "25min Timer", "⏱", "Set a 25 minute focus timer"));
    v.push(task("4", "5min Break", "☕", "Set a 5 minute break timer"));
    v.push(task("5", "My IP", "🔌", "Show my public IP address"));
    v.push(task("6", "Screenshot", "📸", "Take a screenshot and tell me what's on my screen"));
    assert(tasks_view(v@) =~= default_task_views());
    v
}

// ── Tasks ──────────────────────────────────────────────────────────────────

/// The tasks whose id differs from `id`, in order.
pub open spec fn without_id(v: Seq<TaskView>, id: Seq<char>) -> Seq<TaskView> {
    v.filter(|t: TaskView| t.id != id)
}

/// Removes every task with the given id (`retain(|t| t.id != id)`).
pub fn delete_task(tasks: Vec<Task>, task_id: &str) -> (r: Vec<Task>)
    ensures
        tasks_view(r@) == without_id(tasks_view(tasks@), task_id@),
{
    let ghost all = tasks_view(tasks@);
    let ghost pred = |t: TaskView| t.id != task_id@;
    let mut out: Vec<Task> = Vec::new();
    let mut i: usize = 0;
    assert(all.take(0) =~= Seq::<TaskView>::empty());
    assert(tasks_view(out@) =~= all.take(0).filter(pred));
    while i < tasks.len()
        invariant
            i <= tasks@.len(),
            all == tasks_view(tasks@),
            pred == (|t: TaskView| t.id != task_id@),
            tasks_view(out@) == all.take(i as int).filter(pred),
        decreases tasks@.len() - i,
    {
        let ghost prev = out@;
        proof {
            reveal_with_fuel(Seq::<_>::filter, 1);
            assert(all.take(i + 1).drop_last() =~= all.take(i as int));
        }
        if !str_eq(tasks[i].id.as_str(), task_id) {
            out.push(tasks[i].duplicate());
            assert(tasks_view(out@) =~= tasks_view(prev).push(all[i as int]));
        }
        i = i + 1;
    }
    assert(all.take(tasks@.len() as int) =~= all);
    out
}

/// The icon of tasks saved from the panel or by the agent.
pub const SAVED_TASK_ICON: &'static str = "⚡";

/// Appends a new task with the given id (the caller supplies a fresh one).
pub fn add_task(tasks: Vec<Task>, id: String, name: String, instruction: String) -> (r: Vec<Task>)
    ensures
        tasks_view(r@) == tasks_view(tasks@).push(
            TaskView { id: id@, name: name@, instruction: instruction@, icon: SAVED_TASK_ICON@ },
        ),
{
    let mut tasks = tasks;
    let ghost prev = tasks@;
    tasks.push(Task { id, name, instruction, icon: owned(SAVED_TASK_ICON) });
    assert(tasks_view(tasks@) =~= tasks_view(prev).push(tasks@.last()@));
    tasks
}

/// Calls `uuid::Uuid::new_v4` and formats it with `to_string`: a random
/// id, in the hyphenated form of 36 characters that the uuid crate documents.
#[verifier::external_body]
fn fresh_id() -> (r: String)
    ensures
        r@.len() == 36,
{
    uuid::Uuid::new_v4().to_string()
}

/// Appends a new task under a fresh random id (what the panel and the
/// agent's `save_task` tool do). Which id it gets is left to chance.
pub fn save_task(tasks: Vec<Task>, name: String, instruction: String) -> (r: Vec<Task>)
    ensures
        exists|id: Seq<char>|
            id.len() == 36 && tasks_view(r@) == tasks_view(tasks@).push(
                TaskView { id, name: name@, instruction: instruction@, icon: SAVED_TASK_ICON@ },
            ),
{
    let id = fresh_id();
    let ghost idv = id@;
    let r = add_task(tasks, id, name, instruction);
    assert(idv.len() == 36);
    r
}

/// The tasks to show: the stored list, or the defaults on first launch
/// (`true` then, so the caller seeds the store with them).
pub fn tasks_or_default(stored: Option<Vec<Task>>) -> (r: (Vec<Task>, bool))
    ensures
        match stored {
            Some(t) => tasks_view(r.0@) == tasks_view(t@) && !r.1,
            None => tasks_view(r.0@) == default_task_views() && r.1,
        },
{
    match stored {
        Some(t) => (t, false),
        None => (default_tasks(), true),
    }
}

/// The agent's confirmation after saving a task.
pub fn task_saved_message(name: &str) -> (r: String)
    ensures
        r@ == "Task '"@ + name@ + "' saved."@,
{
    cat3("Task '", name, "' saved.")
}

/// Law: deleting a task leaves no task with that id and keeps every other
/// task, in order.
pub proof fn law_delete_removes_only_that_id(tasks: Seq<TaskView>, id: Seq<char>)
    ensures
        forall|k: int|
            0 <= k < without_id(tasks, id).len() ==> #[trigger] without_id(tasks, id)[k].id != id,
        forall|t: TaskView| tasks.contains(t) && t.id != id ==> without_id(tasks, id).contains(t),
        forall|t: TaskView| without_id(tasks, id).contains(t) ==> tasks.contains(t),
{
    let pred = |t: TaskView| t.id != id;
    assert forall|k: int| 0 <= k < without_id(tasks, id).len() implies #[trigger] without_id(
        tasks,
        id,
    )[k].id != id by {
        tasks.lemma_filter_pred(pred, k);
    }
    assert forall|t: TaskView| tasks.contains(t) && t.id != id implies without_id(
        tasks,
        id,
    ).contains(t) by {
        let k = choose|k: int| 0 <= k < tasks.len() && tasks[k] == t;
        tasks.lemma_filter_contains(pred, k);
    }
    assert forall|t: TaskView| without_id(tasks, id).contains(t) implies tasks.contains(t) by {
        tasks.lemma_filter_contains_rev(pred, t);
    }
}

// ── Scheduled emails ───────────────────────────────────────────────────────

/// An email waiting to be sent at Unix time `send_at`; kept in the store so
/// that a restart sends it still.
pub struct ScheduledEmail {
    pub id: String,
    pub to: String,
    pub subject: String,
    pub body: String,
    pub send_at: i64,
}

/// The mathematical value of a [`ScheduledEmail`].
pub struct ScheduledView {
    pub id: Seq<char>,
    pub to: Seq<char>,
    pub subject: Seq<char>,
    pub body: Seq<char>,
    pub send_at: int,
}

impl View for ScheduledEmail {
    type V = ScheduledView;

    open spec fn view(&self) -> ScheduledView {
        ScheduledView {
            id: self.id@,
            to: self.to@,
            subject: self.subject@,
            body: self.body@,
            send_at: self.send_at as int,
        }
    }
}

impl ScheduledEmail {
    /// A copy with the same fields.
    pub fn duplicate(&self) -> (r: Self)
        ensures
            r@ == self@,
    {
        ScheduledEmail {
            id: self.id.clone(),
            to: self.to.clone(),
            subject: self.subject.clone(),
            body: self.body.clone(),
            send_at: self.send_at,
        }
    }
}

/// The views of a queue of scheduled emails.
pub open spec fn queue_view(v: Seq<ScheduledEmail>) -> Seq<ScheduledView> {
    v.map_values(|e: ScheduledEmail| e@)
}

/// A new scheduled email, due `wait` seconds after Unix time `now`, under a
/// fresh random id.
pub fn schedule_email(to: &str, subject: &str, body: &str, now: i64, wait: u64) -> (r: ScheduledEmail)
    requires
        now + wait <= i64::MAX,
    ensures
        r@.id.len() == 36,
        r@.to == to@,
        r@.subject == subject@,
        r@.body == body@,
        r@.send_at == now + wait,
{
    let total: i128 = now as i128 + wait as i128;
    let send_at: i64 = total as i64;
    ScheduledEmail { id: fresh_id(), to: owned(to), subject: owned(subject), body: owned(body), send_at }
}

/// Adds an email to the persisted queue.
pub fn add_scheduled_email(queue: Vec<ScheduledEmail>, email: ScheduledEmail) -> (r: Vec<ScheduledEmail>)
    ensures
        queue_view(r@) == queue_view(queue@).push(email@),
{
    let mut queue = queue;
    let ghost prev = queue@;
    queue.push(email);
    assert(queue_view(queue@) =~= queue_view(prev).push(queue@.last()@));
    queue
}

/// The queued emails whose id differs from `id`, in order.
pub open spec fn without_email(v: Seq<ScheduledView>, id: Seq<char>) -> Seq<ScheduledView> {
    v.filter(|e: ScheduledView| e.id != id)
}

/// Drops an email from the queue once it was sent or failed.
pub fn remove_scheduled_email(queue: Vec<ScheduledEmail>, id: &str) -> (r: Vec<ScheduledEmail>)
    ensures
        queue_view(r@) == without_email(queue_view(queue@), id@),
{
    let ghost all = queue_view(queue@);
    let ghost pred = |e: ScheduledView| e.id != id@;
    let mut out: Vec<ScheduledEmail> = Vec::new();
    let mut i: usize = 0;
    assert(all.take(0) =~= Seq::<ScheduledView>::empty());
    assert(queue_view(out@) =~= all.take(0).filter(pred));
    while i < queue.len()
        invariant
            i <= queue@.len(),
            all == queue_view(queue@),
            pred == (|e: ScheduledView| e.id != id@),
            queue_view(out@) == all.take(i as int).filter(pred),
        decreases queue@.len() - i,
    {
        let ghost prev = out@;
        proof {
            reveal_with_fuel(Seq::<_>::filter, 1);
            assert(all.take(i + 1).drop_last() =~= all.take(i as int));
        }
        if !str_eq(queue[i].id.as_str(), id) {
            out.push(queue[i].duplicate());
            assert(queue_view(out@) =~= queue_view(prev).push(all[i as int]));
        }
        i = i + 1;
    }
    assert(all.take(queue@.len() as int) =~= all);
    out
}

/// Law: a queued email stays queued until it is removed by its own id, and
/// removing it takes out that email and no other.
pub proof fn law_queue_add_then_remove(queue: Seq<ScheduledView>, email: ScheduledView, other: Seq<char>)
    ensures
        queue.push(email).contains(email),
        without_email(queue.push(email), email.id) == without_email(queue, email.id),
        other != email.id ==> without_email(queue.push(email), other) == without_email(queue, other).push(email),
{
    let q = queue.push(email);
    assert(q[q.len() - 1] == email);
    reveal_with_fuel(Seq::<_>::filter, 1);
    assert(q.drop_last() =~= queue);
}

// ── Chat history ───────────────────────────────────────────────────────────

/// How many messages the history keeps.
pub const HISTORY_LIMIT: usize = 50;

/// The history after appending a message: the old one plus the new message,
/// cut to its last fifty.
pub open spec fn appended_history(
    history: Seq<(Seq<char>, Seq<char>)>,
    msg: (Seq<char>, Seq<char>),
) -> Seq<(Seq<char>, Seq<char>)> {
    let all = history.push(msg);
    if all.len() > HISTORY_LIMIT {
        all.skip(all.len() - HISTORY_LIMIT)
    } else {
        all
    }
}

/// Appends a message and keeps the last fifty.
pub fn append_history(history: Vec<ChatMessage>, role: &str, content: &str) -> (r: Vec<ChatMessage>)
    ensures
        messages_view(r@) == appended_history(messages_view(history@), (role@, content@)),
{
    let ghost all = messages_view(history@).push((role@, content@));
    let mut h = history;
    let ghost prev = h@;
    h.push(ChatMessage { role: owned(role), content: owned(content) });
    assert(messages_view(h@) =~= all);
    if h.len() > HISTORY_LIMIT {
        let drop = h.len() - HISTORY_LIMIT;
        let mut out: Vec<ChatMessage> = Vec::new();
        let mut i: usize = drop;
        while i < h.len()
            invariant
                drop <= i <= h@.len(),
                messages_view(h@) == all,
                drop == all.len() - HISTORY_LIMIT,
                messages_view(out@) == all.subrange(drop as int, i as int),
            decreases h@.len() - i,
        {
            let ghost before = out@;
            out.push(h[i].duplicate());
            assert(messages_view(out@) =~= messages_view(before).push(all[i as int]));
            assert(all.subrange(drop as int, i + 1) =~= all.subrange(drop as int, i as int).push(
                all[i as int],
            ));
            i = i + 1;
        }
        assert(all.subrange(drop as int, all.len() as int) =~= all.skip(drop as int));
        out
    } else {
        h
    }
}

/// Law: the history never exceeds fifty messages, always ends with the
/// message just appended, and is the tail of the old history followed by it.
pub proof fn law_history_bounded(history: Seq<(Seq<char>, Seq<char>)>, msg: (Seq<char>, Seq<char>))
    ensures
        appended_history(history, msg).len() <= HISTORY_LIMIT,
        appended_history(history, msg).last() == msg,
        appended_history(history, msg) == history.push(msg).skip(
            history.len() + 1 - appended_history(history, msg).len(),
        ),
        history.len() < HISTORY_LIMIT ==> appended_history(history, msg) == history.push(msg),
{
    let all = history.push(msg);
    if all.len() > HISTORY_LIMIT {
        assert(all.skip(all.len() - HISTORY_LIMIT).last() == all.last());
    } else {
        assert(all.skip(0) =~= all);
    }
}

/// The last `n` messages (all of them when there are fewer).
pub open spec fn recent(history: Seq<(Seq<char>, Seq<char>)>, n: nat) -> Seq<(Seq<char>, Seq<char>)> {
    if history.len() > n {
        history.skip(history.len() - n)
    } else {
        history
    }
}

/// The last `n` messages of the history, as the Groq agent sends them.
pub fn recent_history(history: &Vec<ChatMessage>, n: usize) -> (r: Vec<ChatMessage>)
    ensures
        messages_view(r@) == recent(messages_view(history@), n as nat),
{
    let ghost all = messages_view(history@);
    let start = if history.len() > n {
        history.len() - n
    } else {
        0
    };
    let mut out: Vec<ChatMessage> = Vec::new();
    let mut i = start;
    while i < history.len()
        invariant
            start <= i <= history@.len(),
            all == messages_view(history@),
            messages_view(out@) == all.subrange(start as int, i as int),
        decreases history@.len() - i,
    {
        let ghost before = out@;
        out.push(history[i].duplicate());
        assert(messages_view(out@) =~= messages_view(before).push(all[i as int]));
        assert(all.subrange(start as int, i + 1) =~= all.subrange(start as int, i as int).push(
            all[i as int],
        ));
        i = i + 1;
    }
    assert(all.subrange(start as int, all.len() as int) =~= recent(all, n as nat));
    out
}

/// The role Gemini expects for a history message.
pub open spec fn gemini_role_of(role: Seq<char>) -> Seq<char> {
    if role == "assistant"@ {
        "model"@
    } else {
        "user"@
    }
}

/// Maps a history role to Gemini's: the assistant speaks as `model`,
/// everything else as `user`.
pub fn gemini_role(role: &str) -> (r: &'static str)
    ensures
        r@ == gemini_role_of(role@),
{
    if str_eq(role, "assistant") {
        "model"
    } else {
        "user"
    }
}

// ── Provider configuration ─────────────────────────────────────────────────

/// What `serde_json::from_str::<Vec<String>>` yields for a text: the list of
/// strings when the text is a JSON array of strings.
pub uninterp spec fn json_string_list(text: Seq<char>) -> Option<Seq<Seq<char>>>;

/// Calls `serde_json::from_str::<Vec<String>>`; its result is named
/// `json_string_list`. The text serde_json writes for a list of strings
/// (`json_array`, see `encode_string_list`) reads back as that list.
#[verifier::external_body]
fn parse_string_list(text: &str) -> (r: Option<Vec<String>>)
    ensures
        match r {
            Some(v) => json_string_list(text@) == Some(v.deep_view()) && (forall|l: Seq<Seq<char>>|
                #[trigger] json_array(l) == text@ ==> v.deep_view() == l),
            None => json_string_list(text@) is None && (forall|l: Seq<Seq<char>>|
                #[trigger] json_array(l) != text@),
        },
{
    serde_json::from_str::<Vec<String>>(text).ok()
}

/// Calls `serde_json::to_string` on a list of strings. serde_json's source
/// writes it as a compact array of string literals and does not fail on one.
#[verifier::external_body]
fn encode_string_list(items: &Vec<String>) -> (r: Option<String>)
    ensures
        match r {
            Some(s) => s@ == json_array(items.deep_view()),
            None => false,
        },
{
    serde_json::to_string(items).ok()
}

/// Secrets read back from the OS keychain (`None` where the keychain had
/// no entry or could not be read).
pub struct KeychainSecrets {
    pub gemini_key: Option<String>,
    pub gemini_extra_keys: Option<String>,
    pub groq_key: Option<String>,
    pub groq_extra_keys: Option<String>,
    pub gmail_pass: Option<String>,
}

/// A keychain value counts only when it is present and non-empty.
pub open spec fn usable_secret(s: Option<Seq<char>>) -> Option<Seq<char>> {
    match s {
        Some(v) => if v.len() > 0 {
            Some(v)
        } else {
            None
        },
        None => None,
    }
}

/// A keychain value, or the stored one when the keychain has none.
pub open spec fn secret_or(s: Option<Seq<char>>, stored: Seq<char>) -> Seq<char> {
    match usable_secret(s) {
        Some(v) => v,
        None => stored,
    }
}

/// A keychain list (JSON), or the stored one when the keychain has none or
/// it does not parse. A list as serde_json writes it reads back as that
/// list (there is only one such list, see `lemma_json_array_injective`).
pub open spec fn secret_list_or(s: Option<Seq<char>>, stored: Seq<Seq<char>>) -> Seq<Seq<char>> {
    match usable_secret(s) {
        Some(v) => if exists|l: Seq<Seq<char>>| #[trigger] json_array(l) == v {
            choose|l: Seq<Seq<char>>| #[trigger] json_array(l) == v
        } else {
            match json_string_list(v) {
                Some(l) => l,
                None => stored,
            }
        },
        None => stored,
    }
}

pub const DEFAULT_PROVIDER: &'static str = "groq";
pub const DEFAULT_GEMINI_MODEL: &'static str = "gemini-2.5-flash";
pub const DEFAULT_GROQ_MODEL: &'static str = "llama-3.1-8b-instant";

/// Gemini model names that no longer serve requests (empty, previews, and
/// the retired 2.0 models).
pub open spec fn retired_gemini_model(m: Seq<char>) -> bool {
    m.len() == 0 || has_sub(m, "preview"@) || m == "gemini-2.0-flash"@ || m
        == "gemini-2.0-flash-lite"@
}

/// The configuration in effect: the stored one with keychain secrets taking
/// precedence, and defaults for an empty provider or model names (a retired
/// Gemini model is replaced by the current one).
pub open spec fn effective_config(stored: ConfigView, s: KeychainSecrets) -> ConfigView {
    ConfigView {
        provider: if stored.provider.len() == 0 {
            DEFAULT_PROVIDER@
        } else {
            stored.provider
        },
        gemini_model: if retired_gemini_model(stored.gemini_model) {
            DEFAULT_GEMINI_MODEL@
        } else {
            stored.gemini_model
        },
        groq_model: if stored.groq_model.len() == 0 {
            DEFAULT_GROQ_MODEL@
        } else {
            stored.groq_model
        },
        gemini_key: secret_or(s.gemini_key.deep_view(), stored.gemini_key),
        gemini_extra_keys: secret_list_or(s.gemini_extra_keys.deep_view(), stored.gemini_extra_keys),
        groq_key: secret_or(s.groq_key.deep_view(), stored.groq_key),
        groq_extra_keys: secret_list_or(s.groq_extra_keys.deep_view(), stored.groq_extra_keys),
        gmail_user: stored.gmail_user,
        gmail_pass: secret_or(s.gmail_pass.deep_view(), stored.gmail_pass),
    }
}

fn pick_secret(s: &Option<String>, stored: String) -> (r: String)
    ensures
        r@ == secret_or(s.deep_view(), stored@),
{
    match s {
        Some(v) => if v.as_str().unicode_len() > 0 {
            v.clone()
        } else {
            stored
        },
        None => stored,
    }
}

fn pick_secret_list(s: &Option<String>, stored: Vec<String>) -> (r: Vec<String>)
    ensures
        r.deep_view() == secret_list_or(s.deep_view(), stored.deep_view()),
{
    match s {
        Some(v) => if v.as_str().unicode_len() > 0 {
            let parsed = parse_string_list(v.as_str());
            proof {
                if exists|l: Seq<Seq<char>>| #[trigger] json_array(l) == v@ {
                    let l = choose|l: Seq<Seq<char>>| #[trigger] json_array(l) == v@;
                    assert(json_array(l) == v@);
                }
            }
            match parsed {
                Some(l) => l,
                None => stored,
            }
        } else {
            stored
        },
        None => stored,
    }
}

/// The configuration in effect, from what the settings file holds (the
/// empty configuration when it holds none) and what the keychain holds.
pub fn resolve_provider_config(stored: ProviderConfig, secrets: &KeychainSecrets) -> (r: ProviderConfig)
    ensures
        r@ == effective_config(stored@, *secrets),
{
    let ghost st = stored@;
    let provider = if stored.provider.as_str().unicode_len() == 0 {
        owned(DEFAULT_PROVIDER)
    } else {
        stored.provider
    };
    let m = stored.gemini_model;
    let retired = m.as_str().unicode_len() == 0 || str_contains(m.as_str(), "preview") || str_eq(
        m.as_str(),
        "gemini-2.0-flash",
    ) || str_eq(m.as_str(), "gemini-2.0-flash-lite");
    let gemini_model = if retired {
        owned(DEFAULT_GEMINI_MODEL)
    } else {
        m
    };
    let groq_model = if stored.groq_model.as_str().unicode_len() == 0 {
        owned(DEFAULT_GROQ_MODEL)
    } else {
        stored.groq_model
    };
    ProviderConfig {
        provider,
        gemini_key: pick_secret(&secrets.gemini_key, stored.gemini_key),
        gemini_extra_keys: pick_secret_list(&secrets.gemini_extra_keys, stored.gemini_extra_keys),
        gemini_model,
        groq_key: pick_secret(&secrets.groq_key, stored.groq_key),
        groq_extra_keys: pick_secret_list(&secrets.groq_extra_keys, stored.groq_extra_keys),
        groq_model,
        gmail_user: stored.gmail_user,
        gmail_pass: pick_secret(&secrets.gmail_pass, stored.gmail_pass),
    }
}

/// A keychain write: store `value` under `account`, or delete the entry
/// when `value` is empty.
pub struct SecretWrite {
    pub account: String,
    pub value: String,
}

impl View for SecretWrite {
    type V = (Seq<char>, Seq<char>);

    open spec fn view(&self) -> (Seq<char>, Seq<char>) {
        (self.account@, self.value@)
    }
}

/// The JSON text of a key list (`[]` would stand in if it could not be encoded).
pub open spec fn list_json(items: Seq<Seq<char>>) -> Seq<char> {
    json_array(items)
}

/// The keychain writes for saving a configuration, in this order: the
/// Gemini key, the Gemini extra keys (as JSON), the Groq key, the Groq extra
/// keys (as JSON), the Gmail password.
pub open spec fn secret_writes_view(c: ConfigView) -> Seq<(Seq<char>, Seq<char>)> {
    seq![
        ("gemini_key"@, c.gemini_key),
        ("gemini_extra_keys"@, list_json(c.gemini_extra_keys)),
        ("groq_key"@, c.groq_key),
        ("groq_extra_keys"@, list_json(c.groq_extra_keys)),
        ("gmail_pass"@, c.gmail_pass),
    ]
}

fn list_json_exec(items: &Vec<String>) -> (r: String)
    ensures
        r@ == list_json(items.deep_view()),
{
    match encode_string_list(items) {
        Some(t) => t,
        None => owned("[]"),
    }
}

/// The keychain writes for saving a configuration.
pub fn secret_writes(config: &ProviderConfig) -> (r: Vec<SecretWrite>)
    ensures
        r@.map_values(|w: SecretWrite| w@) == secret_writes_view(config@),
{
    let mut v: Vec<SecretWrite> = Vec::new();
    v.push(SecretWrite { account: owned("gemini_key"), value: config.gemini_key.clone() });
    v.push(
        SecretWrite {
            account: owned("gemini_extra_keys"),
            value: list_json_exec(&config.gemini_extra_keys),
        },
    );
    v.push(SecretWrite { account: owned("groq_key"), value: config.groq_key.clone() });
    v.push(
        SecretWrite {
            account: owned("groq_extra_keys"),
            value: list_json_exec(&config.groq_extra_keys),
        },
    );
    v.push(SecretWrite { account: owned("gmail_pass"), value: config.gmail_pass.clone() });
    assert(v@.map_values(|w: SecretWrite| w@) =~= secret_writes_view(config@));
    v
}

/// The configuration written to the settings file after the keychain
/// writes: each secret whose write succeeded is blanked, each whose write
/// failed is kept so that it is not lost.
pub open spec fn sanitized_view(c: ConfigView, ok: Seq<bool>) -> ConfigView {
    ConfigView {
        gemini_key: if ok[0] {
            Seq::empty()
        } else {
            c.gemini_key
        },
        gemini_extra_keys: if ok[1] {
            Seq::empty()
        } else {
            c.gemini_extra_keys
        },
        groq_key: if ok[2] {
            Seq::empty()
        } else {
            c.groq_key
        },
        groq_extra_keys: if ok[3] {
            Seq::empty()
        } else {
            c.groq_extra_keys
        },
        gmail_pass: if ok[4] {
            Seq::empty()
        } else {
            c.gmail_pass
        },
        ..c
    }
}

/// Blanks the secrets that reached the keychain; `ok[i]` is whether write
/// `i` of [`secret_writes`] succeeded.
pub fn sanitize_config(config: ProviderConfig, ok: &Vec<bool>) -> (r: ProviderConfig)
    requires
        ok@.len() == 5,
    ensures
        r@ == sanitized_view(config@, ok@),
{
    let mut c = config;
    if ok[0] {
        c.gemini_key = String::new();
    }
    if ok[1] {
        c.gemini_extra_keys = Vec::new();
        assert(c.gemini_extra_keys.deep_view() =~= Seq::<Seq<char>>::empty());
    }
    if ok[2] {
        c.groq_key = String::new();
    }
    if ok[3] {
        c.groq_extra_keys = Vec::new();
        assert(c.groq_extra_keys.deep_view() =~= Seq::<Seq<char>>::empty());
    }
    if ok[4] {
        c.gmail_pass = String::new();
    }
    c
}

/// Whether a stored configuration still holds secrets in plain text.
pub open spec fn has_plaintext_view(c: ConfigView) -> bool {
    c.gemini_key.len() > 0 || c.groq_key.len() > 0 || c.gmail_pass.len() > 0
        || c.gemini_extra_keys.len() > 0 || c.groq_extra_keys.len() > 0
}

/// Whether a stored configuration still holds secrets in plain text (and so
/// needs moving to the keychain).
pub fn has_plaintext_secrets(c: &ProviderConfig) -> (r: bool)
    ensures
        r == has_plaintext_view(c@),
{
    c.gemini_key.as_str().unicode_len() > 0 || c.groq_key.as_str().unicode_len() > 0
        || c.gmail_pass.as_str().unicode_len() > 0 || c.gemini_extra_keys.len() > 0
        || c.groq_extra_keys.len() > 0
}

/// Law: after saving, no secret that reached the keychain stays in the
/// settings file, and every secret that did not is kept; the rest of the
/// configuration is unchanged. When every write succeeds the file holds no
/// plain-text secret.
pub proof fn law_saved_secrets_leave_the_file(c: ConfigView, ok: Seq<bool>)
    requires
        ok.len() == 5,
    ensures
        ok[0] ==> sanitized_view(c, ok).gemini_key.len() == 0,
        !ok[0] ==> sanitized_view(c, ok).gemini_key == c.gemini_key,
        ok[2] ==> sanitized_view(c, ok).groq_key.len() == 0,
        !ok[2] ==> sanitized_view(c, ok).groq_key == c.groq_key,
        ok[4] ==> sanitized_view(c, ok).gmail_pass.len() == 0,
        !ok[4] ==> sanitized_view(c, ok).gmail_pass == c.gmail_pass,
        sanitized_view(c, ok).provider == c.provider,
        sanitized_view(c, ok).gmail_user == c.gmail_user,
        sanitized_view(c, ok).gemini_model == c.gemini_model,
        sanitized_view(c, ok).groq_model == c.groq_model,
        (ok[0] && ok[1] && ok[2] && ok[3] && ok[4]) ==> !has_plaintext_view(sanitized_view(c, ok)),
{
}

/// Law: a secret saved to the keychain is what the configuration in effect
/// reads back, whatever the file holds; with nothing in the keychain the
/// file's value is used.
pub proof fn law_keychain_takes_precedence(stored: ConfigView, s: KeychainSecrets)
    ensures
        s.groq_key.deep_view() matches Some(k) ==> (k.len() > 0 ==> effective_config(
            stored,
            s,
        ).groq_key == k),
        s.gemini_key.deep_view() matches Some(k) ==> (k.len() > 0 ==> effective_config(
            stored,
            s,
        ).gemini_key == k),
        s.gmail_pass.deep_view() matches Some(k) ==> (k.len() > 0 ==> effective_config(
            stored,
            s,
        ).gmail_pass == k),
        s.groq_key is None ==> effective_config(stored, s).groq_key == stored.groq_key,
        effective_config(stored, s).provider.len() > 0,
        effective_config(stored, s).groq_model.len() > 0,
        !retired_gemini_model(effective_config(stored, s).gemini_model) || effective_config(
            stored,
            s,
        ).gemini_model == DEFAULT_GEMINI_MODEL@,
{
    reveal_strlit("groq");
    reveal_strlit("llama-3.1-8b-instant");
}

/// The keychain after a save of `c` whose writes succeeded as `ok` says:
/// a written entry reads back as written (an empty value deletes the entry),
/// an entry whose write failed reads as it did before (`before`).
pub open spec fn keychain_after_save(
    c: ConfigView,
    ok: Seq<bool>,
    before: KeychainSecrets,
    after: KeychainSecrets,
) -> bool {
    &&& ok.len() == 5
    &&& if ok[0] {
        usable_secret(after.gemini_key.deep_view()) == usable_secret(Some(c.gemini_key))
    } else {
        after.gemini_key.deep_view() == before.gemini_key.deep_view()
    }
    &&& if ok[1] {
        usable_secret(after.gemini_extra_keys.deep_view()) == usable_secret(
            Some(list_json(c.gemini_extra_keys)),
        )
    } else {
        after.gemini_extra_keys.deep_view() == before.gemini_extra_keys.deep_view()
    }
    &&& if ok[2] {
        usable_secret(after.groq_key.deep_view()) == usable_secret(Some(c.groq_key))
    } else {
        after.groq_key.deep_view() == before.groq_key.deep_view()
    }
    &&& if ok[3] {
        usable_secret(after.groq_extra_keys.deep_view()) == usable_secret(
            Some(list_json(c.groq_extra_keys)),
        )
    } else {
        after.groq_extra_keys.deep_view() == before.groq_extra_keys.deep_view()
    }
    &&& if ok[4] {
        usable_secret(after.gmail_pass.deep_view()) == usable_secret(Some(c.gmail_pass))
    } else {
        after.gmail_pass.deep_view() == before.gmail_pass.deep_view()
    }
}

/// The keychain holds nothing usable for any account (it is empty or
/// cannot be reached).
pub open spec fn keychain_empty(k: KeychainSecrets) -> bool {
    &&& usable_secret(k.gemini_key.deep_view()) is None
    &&& usable_secret(k.gemini_extra_keys.deep_view()) is None
    &&& usable_secret(k.groq_key.deep_view()) is None
    &&& usable_secret(k.groq_extra_keys.deep_view()) is None
    &&& usable_secret(k.gmail_pass.deep_view()) is None
}

/// The keychain holds no secret that differs from the plain-text ones of `c`.
pub open spec fn keychain_agrees(c: ConfigView, k: KeychainSecrets) -> bool {
    &&& usable_secret(k.gemini_key.deep_view()) is Some ==> usable_secret(k.gemini_key.deep_view())
        == usable_secret(Some(c.gemini_key))
    &&& usable_secret(k.gemini_extra_keys.deep_view()) is Some ==> usable_secret(
        k.gemini_extra_keys.deep_view(),
    ) == usable_secret(Some(list_json(c.gemini_extra_keys)))
    &&& usable_secret(k.groq_key.deep_view()) is Some ==> usable_secret(k.groq_key.deep_view())
        == usable_secret(Some(c.groq_key))
    &&& usable_secret(k.groq_extra_keys.deep_view()) is Some ==> usable_secret(
        k.groq_extra_keys.deep_view(),
    ) == usable_secret(Some(list_json(c.groq_extra_keys)))
    &&& usable_secret(k.gmail_pass.deep_view()) is Some ==> usable_secret(k.gmail_pass.deep_view())
        == usable_secret(Some(c.gmail_pass))
}

/// A configuration that reads back as itself: a provider and a Groq model
/// are set and the Gemini model is a live one.
pub open spec fn settled_config(c: ConfigView) -> bool {
    &&& c.provider.len() > 0
    &&& c.groq_model.len() > 0
    &&& !retired_gemini_model(c.gemini_model)
}

/// The keychain entry serde_json writes for a list reads back as the list.
proof fn lemma_list_entry_reads_back(l: Seq<Seq<char>>, stored: Seq<Seq<char>>)
    ensures
        secret_list_or(Some(list_json(l)), stored) == l,
{
    let v = list_json(l);
    assert(json_array(l) == v);
    assert(v.len() > 0);
    let k = choose|k: Seq<Seq<char>>| #[trigger] json_array(k) == v;
    lemma_json_array_injective(k, l);
}

/// Law: saving a configuration and reading it back gives the same
/// configuration, every secret coming back from the keychain or, where its
/// keychain write failed, from the settings file. This holds whatever the
/// keychain held before when every write succeeds, and for a keychain that
/// holds nothing usable otherwise.
pub proof fn law_saved_settings_read_back(c: ConfigView, ok: Seq<bool>, before: KeychainSecrets, after: KeychainSecrets)
    requires
        settled_config(c),
        keychain_after_save(c, ok, before, after),
        (ok[0] && ok[1] && ok[2] && ok[3] && ok[4]) || keychain_empty(before),
    ensures
        effective_config(sanitized_view(c, ok), after) == c,
{
    lemma_list_entry_reads_back(c.gemini_extra_keys, Seq::empty());
    lemma_list_entry_reads_back(c.groq_extra_keys, Seq::empty());
    lemma_list_entry_reads_back(c.gemini_extra_keys, c.gemini_extra_keys);
    lemma_list_entry_reads_back(c.groq_extra_keys, c.groq_extra_keys);
    let e = effective_config(sanitized_view(c, ok), after);
    assert(list_json(c.gemini_extra_keys).len() > 0);
    assert(list_json(c.groq_extra_keys).len() > 0);
    assert(e.gemini_key == c.gemini_key);
    assert(e.gemini_extra_keys == c.gemini_extra_keys);
    assert(e.groq_key == c.groq_key);
    assert(e.groq_extra_keys == c.groq_extra_keys);
    assert(e.gmail_pass == c.gmail_pass);
}

/// Law: the startup migration settles. When every keychain write succeeds
/// the settings file is left with no plain-text secret, so the next start
/// finds nothing to move; a file with no plain-text secret is left as it is;
/// and the configuration in effect is the same before and after, provided
/// the keychain held no secret that differs from the file's.
pub proof fn law_migration_settles(c: ConfigView, ok: Seq<bool>, before: KeychainSecrets, after: KeychainSecrets)
    requires
        keychain_after_save(c, ok, before, after),
        keychain_agrees(c, before),
    ensures
        (ok[0] && ok[1] && ok[2] && ok[3] && ok[4]) ==> !has_plaintext_view(sanitized_view(c, ok)),
        !has_plaintext_view(c) ==> sanitized_view(c, ok) == c,
        effective_config(sanitized_view(c, ok), after) == effective_config(c, before),
{
    lemma_list_entry_reads_back(c.gemini_extra_keys, Seq::empty());
    lemma_list_entry_reads_back(c.groq_extra_keys, Seq::empty());
    lemma_list_entry_reads_back(c.gemini_extra_keys, c.gemini_extra_keys);
    lemma_list_entry_reads_back(c.groq_extra_keys, c.groq_extra_keys);
    let x = effective_config(sanitized_view(c, ok), after);
    let y = effective_config(c, before);
    assert(list_json(c.gemini_extra_keys).len() > 0);
    assert(list_json(c.groq_extra_keys).len() > 0);
    assert(x.gemini_key == y.gemini_key);
    assert(x.gemini_extra_keys == y.gemini_extra_keys);
    assert(x.groq_key == y.groq_key);
    assert(x.groq_extra_keys == y.groq_extra_keys);
    assert(x.gmail_pass == y.gmail_pass);
    if !has_plaintext_view(c) {
        assert(c.gemini_extra_keys =~= Seq::<Seq<char>>::empty());
        assert(c.groq_extra_keys =~= Seq::<Seq<char>>::empty());
        assert(c.gemini_key =~= Seq::<char>::empty());
        assert(c.groq_key =~= Seq::<char>::empty());
        assert(c.gmail_pass =~= Seq::<char>::empty());
    }
}

} // verus!
