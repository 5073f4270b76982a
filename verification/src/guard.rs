//! Screening of PowerShell commands against a table of dangerous patterns.
//!
//! The agent feeds untrusted content (web pages, file contents, tool output)
//! back into the model, so a command the model asks to run may have been
//! planted. Before such a command runs it is held against a denylist of
//! irreversible, security-disabling and remote-code-execution patterns; the
//! first rule that fires gives the reason for refusing it.
use vstd::prelude::*;

use crate::pattern::{compile, is_match, pattern_test, regex_compiles, regex_is_match, Pattern};

verus! {

/// Number of rules in the danger table.
pub const RULE_COUNT: usize = 29;

/// The regular expression of danger rule `i`, in table order.
pub open spec fn rule_pattern(i: int) -> Seq<char> {
    if i == 0 {
        r"(?is)(iex|invoke-expression)[\s\S]*?(http|irm|iwr|invoke-web|invoke-rest|downloadstring|curl|wget)"@
    } else if i == 1 {
        r"(?is)(http|irm|iwr|invoke-web|invoke-rest|downloadstring|curl|wget)[\s\S]*?(iex|invoke-expression)"@
    } else if i == 2 {
        r"(?i)downloadstring"@
    } else if i == 3 {
        r"(?is)(irm|iwr|invoke-web|invoke-rest|curl|wget)[\s\S]*?(start-process|\b&\b|\bsaps\b)"@
    } else if i == 4 {
        r"(?is)(start-process|\b&\b|\bsaps\b)[\s\S]*?(irm|iwr|invoke-web|invoke-rest|curl|wget)"@
    } else if i == 5 {
        r"(?is)remove-item[\s\S]*?(-recurse[\s\S]*?-force|-force[\s\S]*?-recurse)"@
    } else if i == 6 {
        r"(?is)remove-item[\s\S]*?[a-z]:\\?\*"@
    } else if i == 7 {
        r"(?is)remove-item[\s\S]*?\$env:[\s\S]*?\*"@
    } else if i == 8 {
        r"(?is)\brm\b[\s\S]*?-r(ecurse)?[\s\S]*?-fo(rce)?"@
    } else if i == 9 {
        r"(?is)\brm\b[\s\S]*?-fo(rce)?[\s\S]*?-r(ecurse)?"@
    } else if i == 10 {
        r"(?is)\b(rd|rmdir)\b[\s\S]*?/s"@
    } else if i == 11 {
        r"(?is)\bdel\b[\s\S]*?/[sqf]"@
    } else if i == 12 {
        r"(?i)\b(format-volume|clear-disk|diskpart)\b"@
    } else if i == 13 {
        r"(?is)\bcipher\b[\s\S]*?/w"@
    } else if i == 14 {
        r"(?i)\b(stop-computer|restart-computer|bcdedit)\b"@
    } else if i == 15 {
        r"(?is)\bshutdown\b[\s\S]*?[/-][rsg]"@
    } else if i == 16 {
        r"(?is)set-executionpolicy[\s\S]*?(unrestricted|bypass)"@
    } else if i == 17 {
        r"(?is)(disable|remove|stop)[\s\S]{0,40}(defender|firewall)"@
    } else if i == 18 {
        r"(?is)set-mppreference[\s\S]*?disable"@
    } else if i == 19 {
        r"(?is)add-mppreference[\s\S]*?exclusion"@
    } else if i == 20 {
        r"(?is)netsh[\s\S]*?firewall[\s\S]*?\boff\b"@
    } else if i == 21 {
        r"(?is)set-netfirewallprofile[\s\S]*?-enabled[\s\S]*?false"@
    } else if i == 22 {
        r"(?is)net\s+user[\s\S]*?/add"@
    } else if i == 23 {
        r"(?i)new-localuser"@
    } else if i == 24 {
        r"(?is)add-localgroupmember[\s\S]*?admin"@
    } else if i == 25 {
        r"(?i)(new|register)-scheduledtask"@
    } else if i == 26 {
        r"(?is)\bschtasks\b[\s\S]*?/create"@
    } else if i == 27 {
        r"(?is)\breg\b[\s\S]*?\b(delete|add)\b[\s\S]*?hk"@
    } else {
        r"(?is)(set|new|remove)-item(property)?[\s\S]*?hk(lm|cu):"@
    }
}

/// The reason reported when danger rule `i` matches.
pub open spec fn rule_reason(i: int) -> Seq<char> {
    if i == 0 {
        "download and execute code from the internet"@
    } else if i == 1 {
        "download and execute code from the internet"@
    } else if i == 2 {
        "download and execute code from the internet"@
    } else if i == 3 {
        "download and execute a remote file"@
    } else if i == 4 {
        "download and execute a remote file"@
    } else if i == 5 {
        "recursively force-delete files"@
    } else if i == 6 {
        "mass-delete files via wildcard"@
    } else if i == 7 {
        "mass-delete files via wildcard"@
    } else if i == 8 {
        "recursively force-delete files"@
    } else if i == 9 {
        "recursively force-delete files"@
    } else if i == 10 {
        "recursively delete a directory tree"@
    } else if i == 11 {
        "force-delete files"@
    } else if i == 12 {
        "format or wipe a disk"@
    } else if i == 13 {
        "securely wipe free disk space"@
    } else if i == 14 {
        "shut down, restart, or alter boot config"@
    } else if i == 15 {
        "shut down or restart the machine"@
    } else if i == 16 {
        "disable PowerShell's execution policy"@
    } else if i == 17 {
        "disable Windows Defender or the firewall"@
    } else if i == 18 {
        "disable Windows Defender protections"@
    } else if i == 19 {
        "add a Windows Defender exclusion"@
    } else if i == 20 {
        "turn off the firewall"@
    } else if i == 21 {
        "disable the firewall"@
    } else if i == 22 {
        "create a new user account"@
    } else if i == 23 {
        "create a new local user account"@
    } else if i == 24 {
        "grant administrator rights"@
    } else if i == 25 {
        "install a scheduled task for persistence"@
    } else if i == 26 {
        "install a scheduled task for persistence"@
    } else if i == 27 {
        "modify the Windows registry"@
    } else {
        "modify the Windows registry"@
    }
}

/// The source text and reason of danger rule `i`.
pub fn rule_text(i: usize) -> (r: (&'static str, &'static str))
    requires
        i < RULE_COUNT,
    ensures
        r.0@ == rule_pattern(i as int),
        r.1@ == rule_reason(i as int),
{
    if i == 0 {
        (r"(?is)(iex|invoke-expression)[\s\S]*?(http|irm|iwr|invoke-web|invoke-rest|downloadstring|curl|wget)", "download and execute code from the internet")
    } else if i == 1 {
        (r"(?is)(http|irm|iwr|invoke-web|invoke-rest|downloadstring|curl|wget)[\s\S]*?(iex|invoke-expression)", "download and execute code from the internet")
    } else if i == 2 {
        (r"(?i)downloadstring", "download and execute code from the internet")
    } else if i == 3 {
        (r"(?is)(irm|iwr|invoke-web|invoke-rest|curl|wget)[\s\S]*?(start-process|\b&\b|\bsaps\b)", "download and execute a remote file")
    } else if i == 4 {
        (r"(?is)(start-process|\b&\b|\bsaps\b)[\s\S]*?(irm|iwr|invoke-web|invoke-rest|curl|wget)", "download and execute a remote file")
    } else if i == 5 {
        (r"(?is)remove-item[\s\S]*?(-recurse[\s\S]*?-force|-force[\s\S]*?-recurse)", "recursively force-delete files")
    } else if i == 6 {
        (r"(?is)remove-item[\s\S]*?[a-z]:\\?\*", "mass-delete files via wildcard")
    } else if i == 7 {
        (r"(?is)remove-item[\s\S]*?\$env:[\s\S]*?\*", "mass-delete files via wildcard")
    } else if i == 8 {
        (r"(?is)\brm\b[\s\S]*?-r(ecurse)?[\s\S]*?-fo(rce)?", "recursively force-delete files")
    } else if i == 9 {
        (r"(?is)\brm\b[\s\S]*?-fo(rce)?[\s\S]*?-r(ecurse)?", "recursively force-delete files")
    } else if i == 10 {
        (r"(?is)\b(rd|rmdir)\b[\s\S]*?/s", "recursively delete a directory tree")
    } else if i == 11 {
        (r"(?is)\bdel\b[\s\S]*?/[sqf]", "force-delete files")
    } else if i == 12 {
        (r"(?i)\b(format-volume|clear-disk|diskpart)\b", "format or wipe a disk")
    } else if i == 13 {
        (r"(?is)\bcipher\b[\s\S]*?/w", "securely wipe free disk space")
    } else if i == 14 {
        (r"(?i)\b(stop-computer|restart-computer|bcdedit)\b", "shut down, restart, or alter boot config")
    } else if i == 15 {
        (r"(?is)\bshutdown\b[\s\S]*?[/-][rsg]", "shut down or restart the machine")
    } else if i == 16 {
        (r"(?is)set-executionpolicy[\s\S]*?(unrestricted|bypass)", "disable PowerShell's execution policy")
    } else if i == 17 {
        (r"(?is)(disable|remove|stop)[\s\S]{0,40}(defender|firewall)", "disable Windows Defender or the firewall")
    } else if i == 18 {
        (r"(?is)set-mppreference[\s\S]*?disable", "disable Windows Defender protections")
    } else if i == 19 {
        (r"(?is)add-mppreference[\s\S]*?exclusion", "add a Windows Defender exclusion")
    } else if i == 20 {
        (r"(?is)netsh[\s\S]*?firewall[\s\S]*?\boff\b", "turn off the firewall")
    } else if i == 21 {
        (r"(?is)set-netfirewallprofile[\s\S]*?-enabled[\s\S]*?false", "disable the firewall")
    } else if i == 22 {
        (r"(?is)net\s+user[\s\S]*?/add", "create a new user account")
    } else if i == 23 {
        (r"(?i)new-localuser", "create a new local user account")
    } else if i == 24 {
        (r"(?is)add-localgroupmember[\s\S]*?admin", "grant administrator rights")
    } else if i == 25 {
        (r"(?i)(new|register)-scheduledtask", "install a scheduled task for persistence")
    } else if i == 26 {
        (r"(?is)\bschtasks\b[\s\S]*?/create", "install a scheduled task for persistence")
    } else if i == 27 {
        (r"(?is)\breg\b[\s\S]*?\b(delete|add)\b[\s\S]*?hk", "modify the Windows registry")
    } else {
        (r"(?is)(set|new|remove)-item(property)?[\s\S]*?hk(lm|cu):", "modify the Windows registry")
    }
}

/// Whether each rule fires on `command`, in table order (a rule whose
/// pattern does not compile never fires).
pub open spec fn rule_hits(command: Seq<char>) -> Seq<bool> {
    Seq::new(RULE_COUNT as nat, |i: int| pattern_test(rule_pattern(i), command))
}

/// The first index at or after `from` whose entry is `true`.
pub open spec fn first_hit_from(hits: Seq<bool>, from: int) -> Option<int>
    decreases hits.len() - from,
{
    if from < 0 || from >= hits.len() {
        None
    } else if hits[from] {
        Some(from)
    } else {
        first_hit_from(hits, from + 1)
    }
}

/// The first index whose entry is `true`.
pub open spec fn first_hit(hits: Seq<bool>) -> Option<int> {
    first_hit_from(hits, 0)
}

/// `first_hit_from` finds the least true index at or after `from`, and
/// finds none exactly when there is none.
pub proof fn lemma_first_hit_from(hits: Seq<bool>, from: int)
    requires
        0 <= from,
    ensures
        first_hit_from(hits, from) is None <==> (forall|j: int| from <= j < hits.len() ==> !hits[j]),
        first_hit_from(hits, from) matches Some(i) ==> from <= i < hits.len() && hits[i] && (forall|
            j: int,
        | from <= j < i ==> !hits[j]),
    decreases hits.len() - from,
{
    if from < hits.len() && !hits[from] {
        lemma_first_hit_from(hits, from + 1);
    }
}

/// Law: a command is refused exactly when some rule of the table fires on
/// it, and a refusal names the reason of the first rule that fires.
pub proof fn law_screen_refuses_iff_a_rule_fires(command: Seq<char>)
    ensures
        first_hit(rule_hits(command)) is None <==> (forall|i: int|
            0 <= i < RULE_COUNT ==> !pattern_test(rule_pattern(i), command)),
        first_hit(rule_hits(command)) matches Some(i) ==> 0 <= i < RULE_COUNT && pattern_test(
            rule_pattern(i),
            command,
        ) && (forall|j: int| 0 <= j < i ==> !pattern_test(rule_pattern(j), command)),
{
    let h = rule_hits(command);
    lemma_first_hit_from(h, 0);
    assert(h.len() == RULE_COUNT);
    assert forall|i: int| 0 <= i < RULE_COUNT implies #[trigger] h[i] == pattern_test(
        rule_pattern(i),
        command,
    ) by {}
    if first_hit(h) is None {
        assert forall|i: int| 0 <= i < RULE_COUNT implies !pattern_test(
            rule_pattern(i),
            command,
        ) by {
            assert(!h[i]);
        }
    } else {
        let i = first_hit(h)->Some_0;
        assert(h[i]);
        assert forall|j: int| 0 <= j < i implies !pattern_test(rule_pattern(j), command) by {
            assert(!h[j]);
        }
    }
}

/// One compiled rule of the danger table.
pub struct DangerRule {
    /// Position of the rule in the table.
    pub index: usize,
    /// The compiled pattern.
    pub pattern: Pattern,
    /// Why a command that matches is refused.
    pub reason: String,
}

/// The rules of the danger table whose patterns compile, in table order.
pub fn dangerous_commands() -> (r: Vec<DangerRule>)
    ensures
        table_ok(r@),
{
    let mut out: Vec<DangerRule> = Vec::new();
    let mut i: usize = 0;
    while i < RULE_COUNT
        invariant
            i <= RULE_COUNT,
            forall|k: int|
                0 <= k < out@.len() ==> {
                    &&& #[trigger] out@[k].index < i
                    &&& out@[k].pattern.source() == rule_pattern(out@[k].index as int)
                    &&& out@[k].reason@ == rule_reason(out@[k].index as int)
                },
            forall|k: int, l: int| 0 <= k < l < out@.len() ==> out@[k].index < out@[l].index,
            forall|j: int|
                0 <= j < i ==> (regex_compiles(rule_pattern(j)) <==> exists|k: int|
                    0 <= k < out@.len() && out@[k].index == j),
        decreases RULE_COUNT - i,
    {
        let (src, reason) = rule_text(i);
        match compile(src) {
            Some(p) => {
                let ghost before = out@;
                out.push(DangerRule { index: i, pattern: p, reason: reason.to_owned() });
                assert forall|j: int|
                    0 <= j <= i implies (regex_compiles(rule_pattern(j)) <==> exists|k: int|
                        0 <= k < out@.len() && out@[k].index == j) by {
                    if j < i && regex_compiles(rule_pattern(j)) {
                        let k = choose|k: int| 0 <= k < before.len() && before[k].index == j;
                        assert(out@[k] == before[k]);
                    }
                    if j == i {
                        assert(out@[out@.len() - 1].index == i);
                    }
                    if exists|k: int| 0 <= k < out@.len() && out@[k].index == j {
                        let k = choose|k: int| 0 <= k < out@.len() && out@[k].index == j;
                        if k < before.len() {
                            assert(out@[k] == before[k]);
                        }
                    }
                }
            },
            None => {
                assert forall|j: int|
                    0 <= j <= i implies (regex_compiles(rule_pattern(j)) <==> exists|k: int|
                        0 <= k < out@.len() && out@[k].index == j) by {
                    if j == i {
                        if exists|k: int| 0 <= k < out@.len() && out@[k].index == j {
                            let k = choose|k: int| 0 <= k < out@.len() && out@[k].index == j;
                            assert(out@[k].index < i);
                        }
                    }
                }
            },
        }
        i = i + 1;
    }
    out
}

/// A list of compiled rules is the danger table: each rule carries the
/// pattern and reason of its position, positions increase, and exactly the
/// rules whose patterns compile are present.
pub open spec fn table_ok(r: Seq<DangerRule>) -> bool {
    &&& forall|k: int|
        0 <= k < r.len() ==> {
            &&& #[trigger] r[k].index < RULE_COUNT
            &&& r[k].pattern.source() == rule_pattern(r[k].index as int)
            &&& r[k].reason@ == rule_reason(r[k].index as int)
        }
    &&& forall|k: int, l: int| 0 <= k < l < r.len() ==> r[k].index < r[l].index
    &&& forall|i: int|
        0 <= i < RULE_COUNT ==> (regex_compiles(rule_pattern(i)) <==> exists|k: int|
            0 <= k < r.len() && r[k].index == i)
}

/// The danger table, compiled once and kept for every later screening.
pub struct DangerTable {
    rules: Vec<DangerRule>,
}

impl DangerTable {
    #[verifier::type_invariant]
    spec fn complete(self) -> bool {
        table_ok(self.rules@)
    }

    /// Compiles the danger table.
    pub fn new() -> (r: Self) {
        DangerTable { rules: dangerous_commands() }
    }
}

/// Screen a PowerShell command before it runs. Returns `Err(reason)` when
/// the command matches a dangerous pattern and must not run unattended: the
/// reason is that of the first rule, in table order, that fires.
pub fn screen_command(table: &DangerTable, command: &str) -> (r: Result<(), String>)
    ensures
        match first_hit(rule_hits(command@)) {
            Some(i) => r matches Err(e) && e@ == rule_reason(i),
            None => r is Ok,
        },
{
    proof {
        use_type_invariant(table);
    }
    let rules = &table.rules;
    let ghost h = rule_hits(command@);
    let mut k: usize = 0;
    while k < rules.len()
        invariant
            k <= rules@.len(),
            table_ok(rules@),
            h == rule_hits(command@),
            forall|j: int| 0 <= j < k ==> !regex_is_match(#[trigger] rules@[j].pattern.source(), command@),
        decreases rules@.len() - k,
    {
        if is_match(&rules[k].pattern, command) {
            let ghost i = rules@[k as int].index as int;
            proof {
                lemma_first_hit_from(h, 0);
                assert(regex_compiles(rule_pattern(i)));
                assert(h[i]);
                assert forall|j: int| 0 <= j < i implies !h[j] by {
                    if regex_compiles(rule_pattern(j)) {
                        let k2 = choose|k2: int| 0 <= k2 < rules@.len() && rules@[k2].index == j;
                        if k2 >= k {
                            if k2 > k {
                                assert(rules@[k as int].index < rules@[k2].index);
                            }
                        }
                        assert(k2 < k);
                        assert(!regex_is_match(rules@[k2].pattern.source(), command@));
                    }
                }
                if first_hit(h) is None {
                    assert(!h[i]);
                } else {
                    let f = first_hit(h)->Some_0;
                    if f < i {
                        assert(!h[f]);
                    }
                    if f > i {
                        assert(!h[i]);
                    }
                }
            }
            return Err(rules[k].reason.clone());
        }
        k = k + 1;
    }
    proof {
        lemma_first_hit_from(h, 0);
        assert forall|j: int| 0 <= j < h.len() implies !h[j] by {
            if regex_compiles(rule_pattern(j)) {
                let k2 = choose|k2: int| 0 <= k2 < rules@.len() && rules@[k2].index == j;
                assert(!regex_is_match(rules@[k2].pattern.source(), command@));
            }
        }
    }
    Ok(())
}

} // verus!
