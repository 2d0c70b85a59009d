use vstd::prelude::*;
use crate::text::{
    chars_of, char_is_space, skip_space, is_space, lines_of, replace_all, split_lines,
    starts_with, starts_with_exec, string_from, substitute, views,
};

verus! {

/// The word that opens a line declaring the engine version a script needs.
pub const VERSION_KEY: &'static str = "uuu_version";

/// The placeholder that stands for the image to flash.
pub const IMAGE_TOKEN: &'static str = "_image";

/// The placeholder that stands for the bootloader.
pub const BOOTLOADER_TOKEN: &'static str = "_flash.bin";

/// Whether the line declares the engine version.
pub open spec fn is_version_line(l: Seq<char>) -> bool {
    starts_with(l, VERSION_KEY@)
}

/// Whether the line is a comment.
pub open spec fn is_comment_line(l: Seq<char>) -> bool {
    l.len() > 0 && l[0] == '#'
}

/// Whether the line holds nothing but white space.
pub open spec fn is_blank_line(l: Seq<char>) -> bool {
    forall|i: int| 0 <= i < l.len() ==> is_space(#[trigger] l[i])
}

/// Whether the line is a command that the engine runs.
pub open spec fn is_command_line(l: Seq<char>) -> bool {
    !is_version_line(l) && !is_comment_line(l) && !is_blank_line(l)
}

/// The command lines among `ls`, in order.
pub open spec fn command_lines(ls: Seq<Seq<char>>) -> Seq<Seq<char>>
    decreases ls.len(),
{
    if ls.len() == 0 {
        Seq::empty()
    } else {
        let c = command_lines(ls.drop_last());
        if is_command_line(ls.last()) {
            c.push(ls.last())
        } else {
            c
        }
    }
}

/// The version that a version line declares: what follows the key, without
/// leading white space.
pub open spec fn declared_version(l: Seq<char>) -> Seq<char> {
    skip_space(l.subrange(VERSION_KEY@.len() as int, l.len() as int))
}

/// The version declared by the first version line among `ls`, if any.
pub open spec fn version_of(ls: Seq<Seq<char>>) -> Option<Seq<char>>
    decreases ls.len(),
{
    if ls.len() == 0 {
        None
    } else {
        match version_of(ls.drop_last()) {
            Some(v) => Some(v),
            None => if is_version_line(ls.last()) {
                Some(declared_version(ls.last()))
            } else {
                None
            },
        }
    }
}

/// The number of lines among `ls` of which `f` holds.
pub open spec fn count_lines(ls: Seq<Seq<char>>, f: spec_fn(Seq<char>) -> bool) -> nat
    decreases ls.len(),
{
    if ls.len() == 0 {
        0
    } else {
        count_lines(ls.drop_last(), f) + if f(ls.last()) {
            1nat
        } else {
            0nat
        }
    }
}

/// The characters of an optional string.
pub open spec fn opt_view(o: Option<String>) -> Option<Seq<char>> {
    match o {
        Some(s) => Some(s@),
        None => None,
    }
}

/// Every line is a command, a comment, a blank line or a version line, and
/// no line is two of these: the commands are the lines that are left when
/// the comment, blank and version lines are taken out.
pub proof fn lemma_command_count(ls: Seq<Seq<char>>)
    ensures
        command_lines(ls).len() + count_lines(ls, |l: Seq<char>| is_comment_line(l)) + count_lines(
            ls,
            |l: Seq<char>| is_blank_line(l),
        ) + count_lines(ls, |l: Seq<char>| is_version_line(l)) == ls.len(),
    decreases ls.len(),
{
    if ls.len() > 0 {
        lemma_command_count(ls.drop_last());
        let l = ls.last();
        reveal_strlit("uuu_version");
        if is_version_line(l) {
            assert(l.subrange(0, VERSION_KEY@.len() as int)[0] == 'u');
            assert(!is_blank_line(l) && !is_comment_line(l)) by {
                assert(l[0] == 'u');
                assert(!is_space(l[0]));
            }
        }
        if is_comment_line(l) {
            assert(!is_space(l[0]));
        }
    }
}

/// An ordered sequence of engine commands, with the engine version that the
/// script declared, if it declared one.
#[derive(Debug)]
pub struct Script {
    pub commands: Vec<String>,
    pub uuu_version: Option<String>,
}

/// What a run of a script does next.
#[derive(Debug)]
pub enum Step {
    /// Hand the command at this index to the engine.
    Dispatch(usize),
    /// The run is over, with this outcome.
    Finished(Result<(), String>),
}

/// The first step of a run of `n` commands.
pub open spec fn start_spec(n: nat) -> Step {
    if n == 0 {
        Step::Finished(Ok(()))
    } else {
        Step::Dispatch(0)
    }
}

/// The step of a run of `n` commands after the engine answered `r` to the
/// command at index `i`: the first failure ends the run with that failure.
pub open spec fn after_spec(n: nat, i: nat, r: Result<(), String>) -> Step {
    match r {
        Err(e) => Step::Finished(Err(e)),
        Ok(()) => if i + 1 < n {
            Step::Dispatch((i + 1) as usize)
        } else {
            Step::Finished(Ok(()))
        },
    }
}

/// The indices dispatched from index `i` on, and the outcome, of a run of `n`
/// commands where the engine answers `outcomes[k]` to the command at index `k`.
pub open spec fn run_from(n: nat, outcomes: Seq<Result<(), String>>, i: nat) -> (Seq<nat>, Result<(), String>)
    decreases n - i,
{
    if i >= n || i >= outcomes.len() {
        (Seq::empty(), Ok(()))
    } else {
        match after_spec(n, i, outcomes[i as int]) {
            Step::Dispatch(j) => if i < j && j <= n {
                let (t, r) = run_from(n, outcomes, j as nat);
                (seq![i] + t, r)
            } else {
                (seq![i], Ok(()))
            },
            Step::Finished(r) => (seq![i], r),
        }
    }
}

/// The indices dispatched, and the outcome, of a whole run of `n` commands.
pub open spec fn run_spec(n: nat, outcomes: Seq<Result<(), String>>) -> (Seq<nat>, Result<(), String>) {
    match start_spec(n) {
        Step::Dispatch(j) => run_from(n, outcomes, j as nat),
        Step::Finished(r) => (Seq::empty(), r),
    }
}

proof fn lemma_fail_fast_from(n: nat, outcomes: Seq<Result<(), String>>, f: nat, i: nat)
    requires
        i <= f < n <= usize::MAX,
        f < outcomes.len(),
        forall|k: int| 0 <= k < f ==> outcomes[k] is Ok,
        outcomes[f as int] is Err,
    ensures
        run_from(n, outcomes, i) == (Seq::new((f + 1 - i) as nat, |k: int| (i + k) as nat), outcomes[f as int]),
    decreases f - i,
{
    if i < f {
        lemma_fail_fast_from(n, outcomes, f, i + 1);
        assert(seq![i] + Seq::new((f - i) as nat, |k: int| (i + 1 + k) as nat) =~= Seq::new(
            (f + 1 - i) as nat,
            |k: int| (i + k) as nat,
        ));
    } else {
        assert(seq![i] =~= Seq::new(1, |k: int| (i + k) as nat));
    }
}

/// A run stops at the first command that fails: the commands up to and
/// including it are dispatched, in order, none after it, and the run ends with
/// that command's failure.
pub proof fn lemma_fail_fast(n: nat, outcomes: Seq<Result<(), String>>, f: nat)
    requires
        f < n <= usize::MAX,
        f < outcomes.len(),
        forall|k: int| 0 <= k < f ==> outcomes[k] is Ok,
        outcomes[f as int] is Err,
    ensures
        run_spec(n, outcomes) == (Seq::new(f + 1, |k: int| k as nat), outcomes[f as int]),
{
    lemma_fail_fast_from(n, outcomes, f, 0);
    assert(Seq::new(f + 1, |k: int| (0 + k) as nat) =~= Seq::new(f + 1, |k: int| k as nat));
}

proof fn lemma_all_succeed_from(n: nat, outcomes: Seq<Result<(), String>>, i: nat)
    requires
        i < n <= usize::MAX,
        n <= outcomes.len(),
        forall|k: int| 0 <= k < n ==> outcomes[k] is Ok,
    ensures
        run_from(n, outcomes, i) == (Seq::new((n - i) as nat, |k: int| (i + k) as nat), Ok::<(), String>(())),
    decreases n - i,
{
    if i + 1 < n {
        lemma_all_succeed_from(n, outcomes, i + 1);
        assert(seq![i] + Seq::new((n - i - 1) as nat, |k: int| (i + 1 + k) as nat) =~= Seq::new(
            (n - i) as nat,
            |k: int| (i + k) as nat,
        ));
    } else {
        assert(seq![i] =~= Seq::new(1, |k: int| (i + k) as nat));
    }
}

/// When the engine accepts every command, a run dispatches each command once,
/// in the order of the script, and succeeds.
pub proof fn lemma_all_succeed(n: nat, outcomes: Seq<Result<(), String>>)
    requires
        n <= usize::MAX,
        n <= outcomes.len(),
        forall|k: int| 0 <= k < n ==> outcomes[k] is Ok,
    ensures
        run_spec(n, outcomes) == (Seq::new(n, |k: int| k as nat), Ok::<(), String>(())),
{
    if n > 0 {
        lemma_all_succeed_from(n, outcomes, 0);
        assert(Seq::new(n, |k: int| (0 + k) as nat) =~= Seq::new(n, |k: int| k as nat));
    } else {
        assert(Seq::<nat>::empty() =~= Seq::new(n, |k: int| k as nat));
    }
}

/// Whether the line is blank.
fn blank_exec(l: &Vec<char>) -> (r: bool)
    ensures
        r == is_blank_line(l@),
{
    let mut i: usize = 0;
    while i < l.len()
        invariant
            i <= l.len(),
            forall|k: int| 0 <= k < i ==> is_space(#[trigger] l@[k]),
        decreases l.len() - i,
    {
        if !char_is_space(l[i]) {
            return false;
        }
        i += 1;
    }
    true
}

/// The version declared by the version line `l`.
fn version_exec(l: &Vec<char>, key_len: usize) -> (r: String)
    requires
        key_len == VERSION_KEY@.len(),
        key_len <= l.len(),
    ensures
        r@ == declared_version(l@),
{
    let mut i: usize = key_len;
    while i < l.len() && char_is_space(l[i])
        invariant
            key_len <= i <= l.len(),
            declared_version(l@) == skip_space(l@.subrange(i as int, l.len() as int)),
        decreases l.len() - i,
    {
        assert(l@.subrange(i as int, l.len() as int).subrange(1, l.len() - i) =~= l@.subrange(
            i + 1,
            l.len() as int,
        ));
        i += 1;
    }
    string_from(l, i, l.len())
}

impl Script {
    /// Builds the script from its text: one command per line, leaving out
    /// comment lines (opened by `#`), blank lines and version lines; the
    /// version that the first version line declares is kept apart.
    pub fn new(text: &str) -> (r: Script)
        ensures
            views(r.commands@) == command_lines(lines_of(text@)),
            opt_view(r.uuu_version) == version_of(lines_of(text@)),
    {
        let lines = split_lines(text);
        let key = chars_of(VERSION_KEY);
        let ghost ls = views(lines@);
        let mut commands: Vec<String> = Vec::new();
        let mut uuu_version: Option<String> = None;
        let mut i: usize = 0;
        assert(ls.take(0) =~= Seq::<Seq<char>>::empty());
        while i < lines.len()
            invariant
                ls == views(lines@),
                key@ == VERSION_KEY@,
                i <= lines.len(),
                views(commands@) == command_lines(ls.take(i as int)),
                opt_view(uuu_version) == version_of(ls.take(i as int)),
            decreases lines.len() - i,
        {
            let l = chars_of(lines[i].as_str());
            assert(ls.take(i + 1).drop_last() =~= ls.take(i as int));
            assert(ls.take(i + 1).last() == l@);
            let ghost c0 = commands@;
            if starts_with_exec(&l, &key) {
                if uuu_version.is_none() {
                    uuu_version = Some(version_exec(&l, key.len()));
                }
            } else if l.len() > 0 && l[0] == '#' {
            } else if blank_exec(&l) {
            } else {
                commands.push(lines[i].clone());
                assert(views(commands@) =~= views(c0).push(l@));
            }
            i += 1;
        }
        assert(ls.take(lines.len() as int) =~= ls);
        Script { commands, uuu_version }
    }

    /// The script with `token` replaced by `value` in every command.
    fn substituted(self, token: &str, value: &str) -> (r: Script)
        ensures
            views(r.commands@) == views(self.commands@).map_values(
                |c: Seq<char>| replace_all(c, token@, value@),
            ),
            r.uuu_version == self.uuu_version,
    {
        let mut commands: Vec<String> = Vec::new();
        let mut i: usize = 0;
        while i < self.commands.len()
            invariant
                i <= self.commands.len(),
                views(commands@) == views(self.commands@).take(i as int).map_values(
                    |c: Seq<char>| replace_all(c, token@, value@),
                ),
            decreases self.commands.len() - i,
        {
            let c = substitute(self.commands[i].as_str(), token, value);
            let ghost c0 = commands@;
            commands.push(c);
            assert(views(commands@) =~= views(c0).push(c@));
            assert(views(self.commands@).take(i + 1).map_values(
                |c: Seq<char>| replace_all(c, token@, value@),
            ) =~= views(self.commands@).take(i as int).map_values(
                |c: Seq<char>| replace_all(c, token@, value@),
            ).push(replace_all(self.commands@[i as int]@, token@, value@)));
            assert(views(commands@) =~= views(self.commands@).take(i + 1).map_values(
                |c: Seq<char>| replace_all(c, token@, value@),
            ));
            i += 1;
        }
        assert(views(self.commands@).take(self.commands.len() as int) =~= views(self.commands@));
        Script { commands, uuu_version: self.uuu_version }
    }

    /// The script with the image placeholder replaced by `image` in every
    /// command.
    pub fn with_image(self, image: &str) -> (r: Script)
        ensures
            views(r.commands@) == views(self.commands@).map_values(
                |c: Seq<char>| replace_all(c, IMAGE_TOKEN@, image@),
            ),
            r.uuu_version == self.uuu_version,
    {
        self.substituted(IMAGE_TOKEN, image)
    }

    /// The script with the bootloader placeholder replaced by `bootloader` in
    /// every command.
    pub fn with_bootloader(self, bootloader: &str) -> (r: Script)
        ensures
            views(r.commands@) == views(self.commands@).map_values(
                |c: Seq<char>| replace_all(c, BOOTLOADER_TOKEN@, bootloader@),
            ),
            r.uuu_version == self.uuu_version,
    {
        self.substituted(BOOTLOADER_TOKEN, bootloader)
    }

    /// The first step of a run of the script.
    pub fn first_step(&self) -> (s: Step)
        ensures
            s == start_spec(self.commands.len() as nat),
    {
        if self.commands.len() == 0 {
            Step::Finished(Ok(()))
        } else {
            Step::Dispatch(0)
        }
    }

    /// The step that follows the engine's answer `result` to the command at
    /// `index`.
    pub fn next_step(&self, index: usize, result: Result<(), String>) -> (s: Step)
        ensures
            s == after_spec(self.commands.len() as nat, index as nat, result),
    {
        match result {
            Err(e) => Step::Finished(Err(e)),
            Ok(()) => if index < self.commands.len() && self.commands.len() - index > 1 {
                Step::Dispatch(index + 1)
            } else {
                Step::Finished(Ok(()))
            },
        }
    }
}

} // verus!
