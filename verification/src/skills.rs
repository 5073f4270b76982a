//! Skills: markdown instruction fragments injected into the system prompt
//! when a message mentions one of their keywords.
//!
//! Built-in skills are part of the library; user skills are markdown files
//! with an optional front-matter block (`name:`, `when_to_use:`,
//! `description:`), which [`parse_skill_md`] reads.
use vstd::prelude::*;

use crate::text::{
    cat, cat5, chars_of, find_first, first_index, has_prefix, has_sub, lowercase, matches_at,
    occurs_at, owned, str_contains,
    string_of, to_lowercase, trim, trim_start, trimmed, trimmed_start,
};

use crate::lines::{lines_exec, lines_of, split_char, split_on};

verus! {

/// A skill: its name, its trigger keywords (comma-separated) and its text.
pub struct Skill {
    pub name: String,
    pub when_to_use: String,
    pub content: String,
}

/// The mathematical value of a [`Skill`].
pub struct SkillView {
    pub name: Seq<char>,
    pub when_to_use: Seq<char>,
    pub content: Seq<char>,
}

impl View for Skill {
    type V = SkillView;

    open spec fn view(&self) -> SkillView {
        SkillView { name: self.name@, when_to_use: self.when_to_use@, content: self.content@ }
    }
}

/// The views of a skill list.
pub open spec fn skills_view(v: Seq<Skill>) -> Seq<SkillView> {
    v.map_values(|s: Skill| s@)
}

// ── Matching ───────────────────────────────────────────────────────────────

/// A keyword, once trimmed, is non-empty and occurs in the lowercased message.
pub open spec fn keyword_hit(kw: Seq<char>, lower: Seq<char>) -> bool {
    trimmed(kw).len() > 0 && has_sub(lower, trimmed(kw))
}

/// A skill applies to a lowercased message when one of its comma-separated
/// keywords hits.
pub open spec fn skill_applies(skill: SkillView, lower: Seq<char>) -> bool {
    exists|k: int|
        0 <= k < split_on(skill.when_to_use, ',').len() && #[trigger] keyword_hit(
            split_on(skill.when_to_use, ',')[k],
            lower,
        )
}

/// The first skill, at or after index `i`, that applies.
pub open spec fn first_applying(skills: Seq<SkillView>, lower: Seq<char>, i: int) -> Option<int>
    decreases skills.len() - i,
{
    if i < 0 || i >= skills.len() {
        None
    } else if skill_applies(skills[i], lower) {
        Some(i)
    } else {
        first_applying(skills, lower, i + 1)
    }
}

pub const ACTIVE_HEAD: &'static str = "ACTIVE SKILL — ";
pub const ACTIVE_MID: &'static str = " (follow these instructions for this request):\n";

/// The prompt block that activates a skill.
pub open spec fn skill_block(skill: SkillView) -> Seq<char> {
    ACTIVE_HEAD@ + skill.name + ACTIVE_MID@ + skill.content
}

/// The prompt block for the first skill that applies to a message, if any.
pub open spec fn matched_skill(skills: Seq<SkillView>, message: Seq<char>) -> Option<Seq<char>> {
    match first_applying(skills, lowercase(message), 0) {
        Some(i) => Some(skill_block(skills[i])),
        None => None,
    }
}

fn applies(skill: &Skill, lower: &str) -> (r: bool)
    ensures
        r == skill_applies(skill@, lower@),
{
    let w = chars_of(skill.when_to_use.as_str());
    let parts = split_char(w.as_slice(), ',');
    let ghost views = parts@.map_values(|v: Vec<char>| v@);
    let mut k: usize = 0;
    while k < parts.len()
        invariant
            k <= parts@.len(),
            views == parts@.map_values(|v: Vec<char>| v@),
            views == split_on(skill.when_to_use@, ','),
            forall|j: int| 0 <= j < k ==> !#[trigger] keyword_hit(views[j], lower@),
        decreases parts@.len() - k,
    {
        let kw = trim(string_of(parts[k].as_slice()).as_str());
        assert(views[k as int] == parts@[k as int]@);
        assert(kw@ == trimmed(views[k as int]));
        if kw.as_str().unicode_len() > 0 && str_contains(lower, kw.as_str()) {
            assert(keyword_hit(views[k as int], lower@));
            assert(keyword_hit(split_on(skill@.when_to_use, ',')[k as int], lower@));
            return true;
        }
        k = k + 1;
    }
    assert(!skill_applies(skill@, lower@)) by {
        assert forall|j: int| 0 <= j < split_on(skill@.when_to_use, ',').len() implies !keyword_hit(
            split_on(skill@.when_to_use, ',')[j],
            lower@,
        ) by {
            assert(!keyword_hit(views[j], lower@));
        }
    }
    false
}

/// The prompt block for the first of `skills` whose keywords the message
/// mentions (case-insensitively), if any.
pub fn match_skill(skills: &Vec<Skill>, message: &str) -> (r: Option<String>)
    ensures
        match matched_skill(skills_view(skills@), message@) {
            Some(b) => r matches Some(s) && s@ == b,
            None => r is None,
        },
{
    let lower = to_lowercase(message);
    let ghost sv = skills_view(skills@);
    let mut i: usize = 0;
    while i < skills.len()
        invariant
            i <= skills@.len(),
            sv == skills_view(skills@),
            lower@ == lowercase(message@),
            first_applying(sv, lower@, 0) == first_applying(sv, lower@, i as int),
        decreases skills@.len() - i,
    {
        assert(sv[i as int] == skills@[i as int]@);
        if applies(&skills[i], lower.as_str()) {
            let s = &skills[i];
            let mut b = cat(ACTIVE_HEAD, s.name.as_str());
            b.append(ACTIVE_MID);
            b.append(s.content.as_str());
            return Some(b);
        }
        i = i + 1;
    }
    None
}

// ── Built-in skills ────────────────────────────────────────────────────────

/// The built-in skills, in order.
pub open spec fn builtin_views() -> Seq<SkillView> {
    seq![
        SkillView {
            name: "Email Composer"@,
            when_to_use: "compose email,write email,draft email,help me write an email,email to"@,
            content: EMAIL_SKILL@,
        },
        SkillView {
            name: "System Monitor"@,
            when_to_use: "system status,how is my pc,pc health,system info,monitor my system,full system report"@,
            content: MONITOR_SKILL@,
        },
        SkillView {
            name: "File Manager"@,
            when_to_use: "find my files,organize files,search documents,find documents,file on my desktop,file in downloads"@,
            content: FILES_SKILL@,
        },
    ]
}

pub const EMAIL_SKILL: &'static str = "You are helping compose a professional email. Follow these rules: 1. Ask for recipient, subject, and key points if not provided. 2. Use a clear subject line. 3. Keep the body concise and professional. 4. End with an appropriate sign-off. 5. After composing, offer to send via send_email tool or let the user copy it.";
pub const MONITOR_SKILL: &'static str = "When asked for a system status or health report, gather ALL of: CPU model + cores, RAM total + free, Disk C free/total, uptime hours, Windows version, computer name, and top 5 CPU processes. Present results in a clean summary. Use run_command for each metric.";
pub const FILES_SKILL: &'static str = "When helping find or manage files: 1. Use search_files with the appropriate directory (Desktop, Downloads, Documents). 2. Report exact paths, sizes, and dates. 3. Offer to open the first result if relevant. 4. Never delete files without explicit user confirmation.";

fn skill(name: &str, when: &str, content: &str) -> (r: Skill)
    ensures
        r@ == (SkillView { name: name@, when_to_use: when@, content: content@ }),
{
    Skill { name: owned(name), when_to_use: owned(when), content: owned(content) }
}

/// The built-in skills.
pub fn builtin_skills() -> (r: Vec<Skill>)
    ensures
        skills_view(r@) == builtin_views(),
{
    let mut v: Vec<Skill> = Vec::new();
    v.push(
        skill(
            "Email Composer",
            "compose email,write email,draft email,help me write an email,email to",
            EMAIL_SKILL,
        ),
    );
    v.push(
        skill(
            "System Monitor",
            "system status,how is my pc,pc health,system info,monitor my system,full system report",
            MONITOR_SKILL,
        ),
    );
    v.push(
        skill(
            "File Manager",
            "find my files,organize files,search documents,find documents,file on my desktop,file in downloads",
            FILES_SKILL,
        ),
    );
    assert(skills_view(v@) =~= builtin_views());
    v
}

// ── Parsing skill files ────────────────────────────────────────────────────

/// `s` with every leading repetition of a non-empty `p` removed (what
/// `str::trim_start_matches` does for a string pattern).
#[verifier::opaque]
pub open spec fn strip_repeated(s: Seq<char>, p: Seq<char>) -> Seq<char>
    decreases s.len(),
{
    if p.len() > 0 && has_prefix(s, p) {
        strip_repeated(s.skip(p.len() as int), p)
    } else {
        s
    }
}

fn strip_repeated_exec(s: &[char], p: &[char]) -> (r: usize)
    requires
        p@.len() > 0,
    ensures
        r <= s@.len(),
        s@.skip(r as int) == strip_repeated(s@, p@),
{
    reveal(strip_repeated);
    let n = s.len();
    let mut i: usize = 0;
    assert(s@.skip(0) =~= s@);
    let mut go = matches_at(s, p, 0);
    while go
        invariant
            n == s@.len(),
            i <= s@.len(),
            p@.len() > 0,
            go == occurs_at(s@, p@, i as int),
            strip_repeated(s@.skip(i as int), p@) == strip_repeated(s@, p@),
        decreases s@.len() - i,
    {
        proof {
            reveal(strip_repeated);
            assert(s@.skip(i as int).subrange(0, p@.len() as int) =~= s@.subrange(
                i as int,
                i + p@.len(),
            ));
            assert(s@.skip(i as int).skip(p@.len() as int) =~= s@.skip(i + p@.len()));
        }
        i = i + p.len();
        go = matches_at(s, p, i);
    }
    proof {
        if has_prefix(s@.skip(i as int), p@) {
            assert(s@.skip(i as int).subrange(0, p@.len() as int) =~= s@.subrange(
                i as int,
                i + p@.len(),
            ));
        }
    }
    i
}

/// Where the front-matter text starts in a text that begins with `---`:
/// after every leading `---`, then after every leading newline.
fn front_start(t: &[char]) -> (r: usize)
    ensures
        r <= t@.len(),
        t@.skip(r as int) == strip_repeated(strip_repeated(t@, "---"@), "\n"@),
{
    let dashes = chars_of("---");
    let nl = chars_of("\n");
    proof {
        reveal_strlit("---");
        reveal_strlit("\n");
    }
    let a = strip_repeated_exec(t, dashes.as_slice());
    let after = &t[a..t.len()];
    assert(after@ =~= t@.skip(a as int));
    let b = strip_repeated_exec(after, nl.as_slice());
    assert(after@.skip(b as int) =~= t@.skip(a + b));
    a + b
}


/// A front-matter line updates the name and trigger keywords: `name:` sets
/// the name, `when_to_use:` the keywords, and `description:` the keywords
/// only when none are set yet.
pub open spec fn front_step(state: (Seq<char>, Seq<char>), line: Seq<char>) -> (Seq<char>, Seq<char>) {
    if has_prefix(line, "name:"@) {
        (trimmed(line.skip(5)), state.1)
    } else if has_prefix(line, "when_to_use:"@) {
        (state.0, trimmed(line.skip(12)))
    } else if has_prefix(line, "description:"@) {
        if state.1.len() == 0 {
            (state.0, trimmed(line.skip(12)))
        } else {
            state
        }
    } else {
        state
    }
}

/// The name and keywords a front-matter block sets, line by line.
#[verifier::opaque]
pub open spec fn front_fields(lines: Seq<Seq<char>>) -> (Seq<char>, Seq<char>)
    decreases lines.len(),
{
    if lines.len() == 0 {
        (Seq::empty(), Seq::empty())
    } else {
        front_step(front_fields(lines.drop_last()), lines.last())
    }
}

/// Name, keywords and where the body starts, as read from the front matter
/// (empty and 0 when there is none).
pub open spec fn front_matter(raw: Seq<char>) -> (Seq<char>, Seq<char>, int) {
    let t = trimmed_start(raw);
    if has_prefix(t, "---"@) {
        let rest = strip_repeated(strip_repeated(t, "---"@), "\n"@);
        match first_index(rest, "\n---"@) {
            Some(end) => {
                let f = front_fields(lines_of(rest.take(end)));
                let start = match first_index(raw, "\n---"@) {
                    Some(i) => i + 4,
                    None => 0,
                };
                (f.0, f.1, start)
            },
            None => (Seq::empty(), Seq::empty(), 0),
        }
    } else {
        (Seq::empty(), Seq::empty(), 0)
    }
}

/// The text opens with a front-matter block: `---`, then a closing `\n---`.
pub open spec fn has_front_matter(raw: Seq<char>) -> bool {
    let t = trimmed_start(raw);
    has_prefix(t, "---"@) && first_index(
        strip_repeated(strip_repeated(t, "---"@), "\n"@),
        "\n---"@,
    ) is Some
}

/// The first line of a (non-empty) text, trimmed.
pub open spec fn first_line(content: Seq<char>) -> Seq<char> {
    trimmed(lines_of(content)[0])
}

/// The skill a markdown file named `stem` (its name without extension)
/// describes: none when its body is empty. A file with front matter takes
/// its name and keywords from it; a file without takes the file name as
/// its name and its first line as its keywords. A name still empty becomes
/// `Custom Skill`, keywords still empty the lowercased name.
pub open spec fn parsed_skill(stem: Seq<char>, raw: Seq<char>) -> Option<SkillView> {
    let (name, when, start) = front_matter(raw);
    let content = trimmed(raw.skip(start));
    if content.len() == 0 {
        None
    } else {
        let name = if has_front_matter(raw) {
            name
        } else {
            stem
        };
        let when = if has_front_matter(raw) {
            when
        } else {
            first_line(content)
        };
        let name = if name.len() == 0 {
            "Custom Skill"@
        } else {
            name
        };
        let when = if when.len() == 0 {
            lowercase(name)
        } else {
            when
        };
        Some(SkillView { name, when_to_use: when, content })
    }
}

fn has_prefix_exec(s: &[char], p: &str) -> (r: bool)
    ensures
        r == has_prefix(s@, p@),
{
    let pc = chars_of(p);
    matches_at(s, pc.as_slice(), 0)
}

fn tail_trimmed(s: &[char], n: usize) -> (r: String)
    requires
        n <= s@.len(),
    ensures
        r@ == trimmed(s@.skip(n as int)),
{
    let t = string_of(&s[n..s.len()]);
    assert(s@.subrange(n as int, s@.len() as int) =~= s@.skip(n as int));
    trim(t.as_str())
}

fn front_fields_exec(lines: &Vec<Vec<char>>) -> (r: (String, String))
    ensures
        (r.0@, r.1@) == front_fields(lines@.map_values(|v: Vec<char>| v@)),
{
    reveal(front_fields);
    let ghost lv = lines@.map_values(|v: Vec<char>| v@);
    let mut name = String::new();
    let mut when = String::new();
    let mut i: usize = 0;
    assert(lv.take(0) =~= Seq::<Seq<char>>::empty());
    while i < lines.len()
        invariant
            i <= lines@.len(),
            lv == lines@.map_values(|v: Vec<char>| v@),
            (name@, when@) == front_fields(lv.take(i as int)),
        decreases lines@.len() - i,
    {
        let line = &lines[i];
        assert(lv.take(i + 1).drop_last() =~= lv.take(i as int));
        assert(lv.take(i + 1).last() == line@);
        proof {
            reveal(front_fields);
            reveal_strlit("name:");
            reveal_strlit("when_to_use:");
            reveal_strlit("description:");
        }
        if has_prefix_exec(line.as_slice(), "name:") {
            name = tail_trimmed(line.as_slice(), 5);
        } else if has_prefix_exec(line.as_slice(), "when_to_use:") {
            when = tail_trimmed(line.as_slice(), 12);
        } else if has_prefix_exec(line.as_slice(), "description:") {
            if when.as_str().unicode_len() == 0 {
                when = tail_trimmed(line.as_slice(), 12);
            }
        }
        i = i + 1;
    }
    assert(lv.take(lines@.len() as int) =~= lv);
    (name, when)
}

fn front_matter_exec(raw: &str) -> (r: (String, String, usize, bool))
    ensures
        (r.0@, r.1@, r.2 as int) == front_matter(raw@),
        r.2 <= raw@.len(),
        r.3 == has_front_matter(raw@),
{
    let t = trim_start(raw);
    let tc = chars_of(t.as_str());
    let rc = chars_of(raw);
    let rn = rc.len();
    if !has_prefix_exec(tc.as_slice(), "---") {
        return (String::new(), String::new(), 0, false);
    }
    let fence = chars_of("\n---");
    proof {
        reveal_strlit("\n---");
    }
    let a = front_start(tc.as_slice());
    let rest = &tc.as_slice()[a..tc.len()];
    assert(rest@ =~= tc@.skip(a as int));
    match find_first(rest, fence.as_slice()) {
        Some(end) => {
            assert(rest@.subrange(0, end as int) =~= rest@.take(end as int));
            let lines = lines_exec(&rest[0..end]);
            let (name, when) = front_fields_exec(&lines);
            let start = match find_first(rc.as_slice(), fence.as_slice()) {
                Some(i) => {
                    assert(fence@.len() == 4);
                    i + 4
                },
                None => 0,
            };
            (name, when, start, true)
        },
        None => {
            (String::new(), String::new(), 0, false)
        },
    }
}

fn first_line_exec(content: &str) -> (r: String)
    requires
        content@.len() > 0,
    ensures
        r@ == first_line(content@),
{
    let cs = chars_of(content);
    let lines = lines_exec(cs.as_slice());
    proof {
        reveal(lines_of);
        let c = content@;
        let closed = c.last() == '\n';
        let src = if closed {
            c.drop_last()
        } else {
            c
        };
        crate::lines::lemma_split_on_len(src, '\n');
        assert(lines_of(c).len() == crate::lines::split_on(src, '\n').len());
    }
    assert(lines@.map_values(|v: Vec<char>| v@).len() == lines@.len());
    assert(lines@.len() >= 1);
    assert(lines@.map_values(|v: Vec<char>| v@)[0] == lines@[0]@);
    trim(string_of(lines[0].as_slice()).as_str())
}

/// Reads a skill from the text of a markdown file whose name without
/// extension is `stem`.
pub fn parse_skill_md(stem: &str, raw: &str) -> (r: Option<Skill>)
    ensures
        match parsed_skill(stem@, raw@) {
            Some(v) => r matches Some(s) && s@ == v,
            None => r is None,
        },
{
    let (name, when, start, front) = front_matter_exec(raw);
    let rc = chars_of(raw);
    let content = tail_trimmed(rc.as_slice(), start);
    if content.as_str().unicode_len() == 0 {
        return None;
    }
    let name = if front {
        name
    } else {
        owned(stem)
    };
    let when = if front {
        when
    } else {
        first_line_exec(content.as_str())
    };
    let name = if name.as_str().unicode_len() == 0 {
        owned("Custom Skill")
    } else {
        name
    };
    let when = if when.as_str().unicode_len() == 0 {
        to_lowercase(name.as_str())
    } else {
        when
    };
    Some(Skill { name, when_to_use: when, content })
}

/// The skills in effect: the built-in ones, then every user file (in the
/// order given, as its name without extension and its text) that describes
/// a skill.
pub open spec fn loaded_skills(files: Seq<(Seq<char>, Seq<char>)>) -> Seq<SkillView>
    decreases files.len(),
{
    if files.len() == 0 {
        builtin_views()
    } else {
        let prev = loaded_skills(files.drop_last());
        match parsed_skill(files.last().0, files.last().1) {
            Some(s) => prev.push(s),
            None => prev,
        }
    }
}

/// Builds the skill list from the user's skill files, each given as its
/// name without extension and its text.
pub fn load_skills(files: &Vec<(String, String)>) -> (r: Vec<Skill>)
    ensures
        skills_view(r@) == loaded_skills(files.deep_view()),
{
    let ghost fv = files.deep_view();
    let mut v = builtin_skills();
    let mut i: usize = 0;
    assert(fv.take(0) =~= Seq::<(Seq<char>, Seq<char>)>::empty());
    while i < files.len()
        invariant
            i <= files@.len(),
            fv == files.deep_view(),
            skills_view(v@) == loaded_skills(fv.take(i as int)),
        decreases files@.len() - i,
    {
        assert(fv.take(i + 1).drop_last() =~= fv.take(i as int));
        assert(fv.take(i + 1).last() == (files@[i as int].0@, files@[i as int].1@));
        let ghost before = v@;
        match parse_skill_md(files[i].0.as_str(), files[i].1.as_str()) {
            Some(s) => {
                v.push(s);
                assert(skills_view(v@) =~= skills_view(before).push(v@.last()@));
            },
            None => {},
        }
        i = i + 1;
    }
    assert(fv.take(files@.len() as int) =~= fv);
    v
}

} // verus!
