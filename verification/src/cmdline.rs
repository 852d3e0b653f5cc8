//! The command line of a child process on Windows.
//!
//! Windows hands a process one string, which the process cuts into
//! arguments again. Program and arguments are therefore quoted and escaped
//! such that the usual rules for cutting give them back. Strings are
//! sequences of UTF-16 units here.

use vstd::prelude::*;

verus! {

/// The unit that ends a command line.
pub const NUL: u16 = 0;

/// A tab.
pub const TAB: u16 = 9;

/// A space.
pub const SPACE: u16 = 32;

/// A double quote.
pub const QUOTE: u16 = 34;

/// A backslash.
pub const BACKSLASH: u16 = 92;

/// Why a command line cannot be made.
#[derive(Debug, Clone, Copy, PartialEq, Eq, Structural)]
pub enum CommandLineError {
    /// nul byte found in provided data
    NulFound,
}

/// The number of backslashes that `s` ends with.
pub open spec fn trailing_backslashes(s: Seq<u16>) -> nat
    decreases s.len(),
{
    if s.len() == 0 || s.last() != BACKSLASH {
        0
    } else {
        1 + trailing_backslashes(s.drop_last())
    }
}

/// `n` backslashes.
pub open spec fn backslashes(n: nat) -> Seq<u16> {
    Seq::new(n, |i: int| BACKSLASH)
}

/// The argument with its quotes escaped: in front of each quote stand twice
/// the backslashes that stood there, and one more. Everything else stays.
pub open spec fn escaped(arg: Seq<u16>) -> Seq<u16>
    decreases arg.len(),
{
    if arg.len() == 0 {
        Seq::empty()
    } else if arg.last() == QUOTE {
        escaped(arg.drop_last()) + backslashes(trailing_backslashes(arg.drop_last()) + 1)
            + seq![QUOTE]
    } else {
        escaped(arg.drop_last()).push(arg.last())
    }
}

/// Whether the argument goes between quotes: where that is asked for,
/// where it holds a space or a tab, and where it is empty, since an empty
/// argument would else be lost.
pub open spec fn needs_quotes(arg: Seq<u16>, force_quotes: bool) -> bool {
    force_quotes || arg.contains(SPACE) || arg.contains(TAB) || arg.len() == 0
}

/// The argument as it stands in the command line. Between quotes, the
/// backslashes that end it are doubled, so that the closing quote stays one.
pub open spec fn quoted(arg: Seq<u16>, force_quotes: bool) -> Seq<u16> {
    if needs_quotes(arg, force_quotes) {
        seq![QUOTE] + escaped(arg) + backslashes(trailing_backslashes(arg)) + seq![QUOTE]
    } else {
        escaped(arg)
    }
}

/// The arguments as they follow the program: each after one space.
pub open spec fn quoted_args(args: Seq<Seq<u16>>) -> Seq<u16>
    decreases args.len(),
{
    if args.len() == 0 {
        Seq::empty()
    } else {
        quoted_args(args.drop_last()) + seq![SPACE] + quoted(args.last(), false)
    }
}

/// The command line: the program, always between quotes, the arguments,
/// and the terminator.
pub open spec fn command_line(prog: Seq<u16>, args: Seq<Seq<u16>>) -> Seq<u16> {
    (quoted(prog, true) + quoted_args(args)).push(NUL)
}

/// The units of each argument.
pub open spec fn args_view(args: Seq<Vec<u16>>) -> Seq<Seq<u16>> {
    Seq::new(args.len(), |i: int| args[i]@)
}

/// An argument without a quote is not changed by escaping.
pub proof fn lemma_escaped_without_quotes(arg: Seq<u16>)
    requires
        !arg.contains(QUOTE),
    ensures
        escaped(arg) == arg,
    decreases arg.len(),
{
    if arg.len() > 0 {
        assert(arg.last() != QUOTE);
        assert forall|i: int| 0 <= i < arg.drop_last().len() implies arg.drop_last()[i]
            != QUOTE by {
            assert(arg[i] != QUOTE);
        }
        lemma_escaped_without_quotes(arg.drop_last());
        assert(arg.drop_last().push(arg.last()) =~= arg);
    } else {
        assert(escaped(arg) =~= arg);
    }
}

/// Escaping adds backslashes and nothing else: an argument without a NUL
/// has none once it is escaped.
pub proof fn lemma_escaped_without_nul(arg: Seq<u16>)
    requires
        !arg.contains(NUL),
    ensures
        !escaped(arg).contains(NUL),
    decreases arg.len(),
{
    if arg.len() > 0 {
        let before = arg.drop_last();
        assert forall|i: int| 0 <= i < before.len() implies before[i] != NUL by {
            assert(arg[i] != NUL);
        }
        assert(arg.last() != NUL);
        lemma_escaped_without_nul(before);
        let out = escaped(arg);
        if out.contains(NUL) {
            let i = choose|i: int| 0 <= i < out.len() && out[i] == NUL;
            if i < escaped(before).len() {
                assert(escaped(before)[i] == NUL);
            }
        }
    }
}

/// An argument without a NUL has none in the command line either.
pub proof fn lemma_quoted_without_nul(arg: Seq<u16>, force_quotes: bool)
    requires
        !arg.contains(NUL),
    ensures
        !quoted(arg, force_quotes).contains(NUL),
{
    lemma_escaped_without_nul(arg);
    let out = quoted(arg, force_quotes);
    if out.contains(NUL) {
        let i = choose|i: int| 0 <= i < out.len() && out[i] == NUL;
        if needs_quotes(arg, force_quotes) {
            if 1 <= i < 1 + escaped(arg).len() {
                assert(escaped(arg)[i - 1] == NUL);
            }
        }
    }
}

/// The arguments without a NUL have none in the command line either.
pub proof fn lemma_quoted_args_without_nul(args: Seq<Seq<u16>>)
    requires
        forall|i: int| 0 <= i < args.len() ==> !(#[trigger] args[i]).contains(NUL),
    ensures
        !quoted_args(args).contains(NUL),
    decreases args.len(),
{
    if args.len() > 0 {
        let before = args.drop_last();
        assert forall|i: int| 0 <= i < before.len() implies !(#[trigger] before[i]).contains(
            NUL,
        ) by {
            assert(before[i] == args[i]);
        }
        lemma_quoted_args_without_nul(before);
        lemma_quoted_without_nul(args.last(), false);
        let head = quoted_args(before) + seq![SPACE];
        let tail = quoted(args.last(), false);
        let out = quoted_args(args);
        if out.contains(NUL) {
            let i = choose|i: int| 0 <= i < out.len() && out[i] == NUL;
            if i < quoted_args(before).len() {
                assert(quoted_args(before)[i] == NUL);
            } else if i >= head.len() {
                assert(tail[i - head.len()] == NUL);
            }
        }
    }
}

/// The command line ends where it should: of strings without a NUL it
/// holds exactly one, which is its last unit.
pub proof fn lemma_command_line_terminated(prog: Seq<u16>, args: Seq<Seq<u16>>)
    requires
        !any_nul(prog, args),
    ensures
        command_line(prog, args).last() == NUL,
        !command_line(prog, args).drop_last().contains(NUL),
{
    lemma_quoted_without_nul(prog, true);
    lemma_quoted_args_without_nul(args);
    let body = quoted(prog, true) + quoted_args(args);
    assert(command_line(prog, args).drop_last() =~= body);
    if body.contains(NUL) {
        let i = choose|i: int| 0 <= i < body.len() && body[i] == NUL;
        if i < quoted(prog, true).len() {
            assert(quoted(prog, true)[i] == NUL);
        } else {
            assert(quoted_args(args)[i - quoted(prog, true).len()] == NUL);
        }
    }
}

/// Where a process stands while it cuts its command line into arguments.
pub struct Cutter {
    /// The arguments that were cut off.
    pub args: Seq<Seq<u16>>,
    /// What was read of the argument that is being cut.
    pub current: Seq<u16>,
    /// Whether an argument is being cut.
    pub started: bool,
    /// Whether a quote was opened and not closed.
    pub in_quotes: bool,
    /// The number of backslashes that were read last, of which it is not
    /// known yet whether a quote follows them.
    pub backslashes: nat,
}

/// The state in which a command line is begun.
pub open spec fn cutter_start() -> Cutter {
    Cutter { args: Seq::empty(), current: Seq::empty(), started: false, in_quotes: false, backslashes: 0 }
}

/// The argument that is being cut, with the backslashes that were read
/// last: this is what it is if nothing more is read.
pub open spec fn cutter_argument(c: Cutter) -> Seq<u16> {
    c.current + backslashes(c.backslashes)
}

/// What one unit does to the cutting, by the rules for arguments.
///
/// Backslashes count only before a quote: an even number of them stands
/// for half as many and the quote opens or closes a quoted part; an odd
/// number stands for half as many and a quote that belongs to the
/// argument. A blank outside quotes ends an argument.
pub open spec fn cut_unit(c: Cutter, x: u16) -> Cutter {
    if x == BACKSLASH {
        Cutter { backslashes: c.backslashes + 1, started: true, ..c }
    } else if x == QUOTE {
        let kept = c.current + backslashes(c.backslashes / 2);
        if c.backslashes % 2 == 1 {
            Cutter { current: kept.push(QUOTE), backslashes: 0, started: true, ..c }
        } else {
            Cutter { current: kept, backslashes: 0, started: true, in_quotes: !c.in_quotes, ..c }
        }
    } else if (x == SPACE || x == TAB) && !c.in_quotes {
        if c.started {
            Cutter {
                args: c.args.push(cutter_argument(c)),
                current: Seq::empty(),
                started: false,
                backslashes: 0,
                ..c
            }
        } else {
            c
        }
    } else {
        Cutter { current: cutter_argument(c).push(x), backslashes: 0, started: true, ..c }
    }
}

/// What a text does to the cutting, unit by unit.
pub open spec fn cut(c: Cutter, text: Seq<u16>) -> Cutter
    decreases text.len(),
{
    if text.len() == 0 {
        c
    } else {
        cut_unit(cut(c, text.drop_last()), text.last())
    }
}

/// The arguments at the end of the line.
pub open spec fn cutter_end(c: Cutter) -> Seq<Seq<u16>> {
    if c.started {
        c.args.push(cutter_argument(c))
    } else {
        c.args
    }
}

/// The arguments that a process cuts out of a command line, given without
/// its terminator.
pub open spec fn arguments_of(line: Seq<u16>) -> Seq<Seq<u16>> {
    cutter_end(cut(cutter_start(), line))
}

/// Cutting one unit.
proof fn lemma_cut_one(c: Cutter, x: u16)
    ensures
        cut(c, seq![x]) == cut_unit(c, x),
{
    reveal_with_fuel(cut, 2);
    assert(seq![x].drop_last() =~= Seq::<u16>::empty());
}

/// Cutting a text is cutting its first part and then the rest.
proof fn lemma_cut_concat(c: Cutter, first: Seq<u16>, rest: Seq<u16>)
    ensures
        cut(c, first + rest) == cut(cut(c, first), rest),
    decreases rest.len(),
{
    if rest.len() == 0 {
        assert(first + rest =~= first);
    } else {
        lemma_cut_concat(c, first, rest.drop_last());
        assert((first + rest).drop_last() =~= first + rest.drop_last());
    }
}

/// Backslashes are only counted until it is known what follows them.
proof fn lemma_cut_backslashes(c: Cutter, n: nat)
    ensures
        cut(c, backslashes(n)) == (Cutter {
            backslashes: c.backslashes + n,
            started: c.started || n > 0,
            ..c
        }),
    decreases n,
{
    if n > 0 {
        lemma_cut_backslashes(c, (n - 1) as nat);
        assert(backslashes(n).drop_last() =~= backslashes((n - 1) as nat));
    }
}

/// One more backslash.
proof fn lemma_backslashes_push(n: nat)
    ensures
        backslashes(n).push(BACKSLASH) == backslashes(n + 1),
{
    assert(backslashes(n).push(BACKSLASH) =~= backslashes(n + 1));
}

/// An escaped argument is cut back to the argument: whatever was read of
/// the argument before, the argument is added to it, and no quoted part is
/// opened or closed.
proof fn lemma_cut_escaped(c: Cutter, arg: Seq<u16>)
    requires
        c.backslashes == 0,
        c.in_quotes || (!arg.contains(SPACE) && !arg.contains(TAB)),
    ensures
        cut(c, escaped(arg)).args == c.args,
        cut(c, escaped(arg)).in_quotes == c.in_quotes,
        cut(c, escaped(arg)).started == (c.started || arg.len() > 0),
        cut(c, escaped(arg)).backslashes == trailing_backslashes(arg),
        cutter_argument(cut(c, escaped(arg))) == c.current + arg,
    decreases arg.len(),
{
    if arg.len() == 0 {
        assert(c.current + backslashes(0) =~= c.current + arg);
    } else {
        let before = arg.drop_last();
        let x = arg.last();
        assert forall|i: int| 0 <= i < before.len() implies before[i] == arg[i] by {
        }
        if !c.in_quotes {
            assert(!before.contains(SPACE)) by {
                if before.contains(SPACE) {
                    let i = choose|i: int| 0 <= i < before.len() && before[i] == SPACE;
                    assert(arg[i] == SPACE);
                }
            }
            assert(!before.contains(TAB)) by {
                if before.contains(TAB) {
                    let i = choose|i: int| 0 <= i < before.len() && before[i] == TAB;
                    assert(arg[i] == TAB);
                }
            }
            assert(arg[arg.len() - 1] != SPACE && arg[arg.len() - 1] != TAB);
        }
        lemma_cut_escaped(c, before);
        let rb = cut(c, escaped(before));
        let t = trailing_backslashes(before);
        assert(arg =~= before.push(x));
        if x == QUOTE {
            lemma_cut_concat(c, escaped(before) + backslashes(t + 1), seq![QUOTE]);
            lemma_cut_concat(c, escaped(before), backslashes(t + 1));
            lemma_cut_backslashes(rb, t + 1);
            let mid = cut(rb, backslashes(t + 1));
            lemma_cut_one(mid, QUOTE);
            assert(mid.backslashes == 2 * t + 1);
            assert(mid.backslashes / 2 == t);
            assert(mid.backslashes % 2 == 1);
            let r = cut_unit(mid, QUOTE);
            assert(r.current == (rb.current + backslashes(t)).push(QUOTE));
            assert(cutter_argument(r) =~= c.current + arg);
        } else if x == BACKSLASH {
            lemma_backslashes_push(t);
            assert(escaped(arg).drop_last() =~= escaped(before));
            let r = cut_unit(rb, x);
            assert(cutter_argument(r) =~= cutter_argument(rb).push(BACKSLASH));
            assert(cutter_argument(r) =~= c.current + arg);
        } else {
            assert(escaped(arg).drop_last() =~= escaped(before));
            let r = cut_unit(rb, x);
            assert(r.current == cutter_argument(rb).push(x));
            assert(cutter_argument(r) =~= c.current + arg);
        }
    }
}

/// An argument as it stands in the command line is cut back to the
/// argument, and is not ended before a blank follows.
proof fn lemma_cut_quoted(c: Cutter, arg: Seq<u16>, force_quotes: bool)
    requires
        !c.started,
        !c.in_quotes,
        c.backslashes == 0,
        c.current == Seq::<u16>::empty(),
    ensures
        cut(c, quoted(arg, force_quotes)).args == c.args,
        cut(c, quoted(arg, force_quotes)).started,
        !cut(c, quoted(arg, force_quotes)).in_quotes,
        cutter_argument(cut(c, quoted(arg, force_quotes))) == arg,
{
    if needs_quotes(arg, force_quotes) {
        let t = trailing_backslashes(arg);
        let opened = cut(c, seq![QUOTE]);
        lemma_cut_one(c, QUOTE);
        assert(c.current + backslashes(0) =~= c.current);
        lemma_cut_escaped(opened, arg);
        let read = cut(opened, escaped(arg));
        lemma_cut_backslashes(read, t);
        let doubled = cut(read, backslashes(t));
        let closed = cut(doubled, seq![QUOTE]);
        lemma_cut_one(doubled, QUOTE);
        assert(doubled.backslashes == 2 * t);
        assert(doubled.backslashes / 2 == t);
        assert(doubled.backslashes % 2 == 0);
        assert(closed.current == read.current + backslashes(t));
        assert(opened.current + arg =~= arg);
        assert(cutter_argument(closed) =~= arg);
        lemma_cut_concat(c, seq![QUOTE], escaped(arg));
        lemma_cut_concat(c, seq![QUOTE] + escaped(arg), backslashes(t));
        lemma_cut_concat(c, seq![QUOTE] + escaped(arg) + backslashes(t), seq![QUOTE]);
    } else {
        lemma_cut_escaped(c, arg);
        assert(c.current + arg =~= arg);
    }
}

/// The arguments of a command line that follow an argument which is not
/// ended yet are cut off one by one.
proof fn lemma_cut_args(c: Cutter, args: Seq<Seq<u16>>)
    requires
        c.started,
        !c.in_quotes,
    ensures
        cut(c, quoted_args(args)).started,
        !cut(c, quoted_args(args)).in_quotes,
        cutter_end(cut(c, quoted_args(args))) == cutter_end(c) + args,
    decreases args.len(),
{
    if args.len() == 0 {
        assert(cutter_end(c) + args =~= cutter_end(c));
    } else {
        let before = args.drop_last();
        lemma_cut_args(c, before);
        let r = cut(c, quoted_args(before));
        let blank = cut(r, seq![SPACE]);
        lemma_cut_one(r, SPACE);
        lemma_cut_quoted(blank, args.last(), false);
        lemma_cut_concat(c, quoted_args(before), seq![SPACE]);
        lemma_cut_concat(c, quoted_args(before) + seq![SPACE], quoted(args.last(), false));
        assert(cutter_end(c) + args =~= (cutter_end(c) + before).push(args.last()));
    }
}

/// The command line round trip: a process that cuts the command line into
/// arguments, by the rules for arguments, gets the program and the
/// arguments that the line was made of.
pub proof fn lemma_command_line_round_trip(prog: Seq<u16>, args: Seq<Seq<u16>>)
    ensures
        arguments_of(command_line(prog, args).drop_last()) == seq![prog] + args,
{
    let start = cutter_start();
    lemma_cut_quoted(start, prog, true);
    let named = cut(start, quoted(prog, true));
    lemma_cut_args(named, args);
    lemma_cut_concat(start, quoted(prog, true), quoted_args(args));
    assert(command_line(prog, args).drop_last() =~= quoted(prog, true) + quoted_args(args));
    assert(cutter_end(named) =~= seq![prog]);
}

/// Whether `unit` occurs in `s`.
fn contains_unit(s: &[u16], unit: u16) -> (found: bool)
    ensures
        found == s@.contains(unit),
{
    let mut i: usize = 0;
    while i < s.len()
        invariant
            i <= s.len(),
            forall|j: int| 0 <= j < i ==> s@[j] != unit,
        decreases s.len() - i,
    {
        if s[i] == unit {
            return true;
        }
        i += 1;
    }
    false
}

/// Refuses a string that holds a NUL: it would end the command line early.
pub fn ensure_no_nuls(s: &[u16]) -> (r: Result<(), CommandLineError>)
    ensures
        r is Err <==> s@.contains(NUL),
{
    if contains_unit(s, NUL) {
        Err(CommandLineError::NulFound)
    } else {
        Ok(())
    }
}

/// Adds `n` backslashes to `cmd`.
fn push_backslashes(cmd: &mut Vec<u16>, n: usize)
    ensures
        final(cmd)@ == old(cmd)@ + backslashes(n as nat),
{
    let mut k: usize = 0;
    while k < n
        invariant
            k <= n,
            cmd@ == old(cmd)@ + backslashes(k as nat),
        decreases n - k,
    {
        cmd.push(BACKSLASH);
        k += 1;
    }
}

/// Adds one argument to the command line, quoted and escaped. An argument
/// with a NUL is refused, and nothing is added.
pub fn append_arg(cmd: &mut Vec<u16>, arg: &[u16], force_quotes: bool) -> (r: Result<
    (),
    CommandLineError,
>)
    ensures
        r is Err <==> arg@.contains(NUL),
        r is Err ==> final(cmd)@ == old(cmd)@,
        r is Ok ==> final(cmd)@ == old(cmd)@ + quoted(arg@, force_quotes),
{
    if ensure_no_nuls(arg).is_err() {
        return Err(CommandLineError::NulFound);
    }
    let quote = force_quotes || contains_unit(arg, SPACE) || contains_unit(arg, TAB) || arg.len()
        == 0;
    if quote {
        cmd.push(QUOTE);
    }
    let ghost opened = cmd@;
    let mut count: usize = 0;
    let mut i: usize = 0;
    while i < arg.len()
        invariant
            i <= arg.len(),
            count <= i,
            count == trailing_backslashes(arg@.take(i as int)),
            cmd@ == opened + escaped(arg@.take(i as int)),
        decreases arg.len() - i,
    {
        let x = arg[i];
        let ghost before = arg@.take(i as int);
        let ghost upto = arg@.take(i as int + 1);
        proof {
            assert(upto.drop_last() =~= before);
        }
        if x == BACKSLASH {
            count += 1;
            cmd.push(x);
        } else {
            if x == QUOTE {
                push_backslashes(cmd, count);
                cmd.push(BACKSLASH);
            }
            count = 0;
            cmd.push(x);
        }
        i += 1;
    }
    proof {
        assert(arg@.take(i as int) =~= arg@);
    }
    if quote {
        push_backslashes(cmd, count);
        cmd.push(QUOTE);
    }
    Ok(())
}

/// Whether one of the strings holds a NUL.
pub open spec fn any_nul(prog: Seq<u16>, args: Seq<Seq<u16>>) -> bool {
    prog.contains(NUL) || exists|i: int| 0 <= i < args.len() && #[trigger] args[i].contains(NUL)
}

/// Makes the command line of a process, such that the process gets `prog`
/// and `args` back when it cuts the line into arguments. The program's name
/// is always quoted. A NUL in any of the strings is refused.
pub fn make_command_line(prog: &[u16], args: &[Vec<u16>]) -> (r: Result<
    Vec<u16>,
    CommandLineError,
>)
    ensures
        r is Err <==> any_nul(prog@, args_view(args@)),
        r matches Ok(cmd) ==> cmd@ == command_line(prog@, args_view(args@)),
{
    let mut cmd: Vec<u16> = Vec::new();
    if append_arg(&mut cmd, prog, true).is_err() {
        return Err(CommandLineError::NulFound);
    }
    let ghost all = args_view(args@);
    let mut i: usize = 0;
    while i < args.len()
        invariant
            i <= args.len(),
            all == args_view(args@),
            !prog@.contains(NUL),
            forall|j: int| 0 <= j < i ==> !(#[trigger] all[j]).contains(NUL),
            cmd@ == quoted(prog@, true) + quoted_args(all.take(i as int)),
        decreases args.len() - i,
    {
        let ghost upto = all.take(i as int + 1);
        proof {
            assert(upto.drop_last() =~= all.take(i as int));
        }
        cmd.push(SPACE);
        if append_arg(&mut cmd, args[i].as_slice(), false).is_err() {
            assert(all[i as int].contains(NUL));
            return Err(CommandLineError::NulFound);
        }
        i += 1;
    }
    proof {
        assert(all.take(i as int) =~= all);
    }
    cmd.push(NUL);
    Ok(cmd)
}

} // verus!
