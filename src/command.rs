use vstd::prelude::*;

use crate::wire::{copy_range, find_from};

verus! {

/// Bytes that force an argument into double quotes: whitespace, `"` and `\`.
pub open spec fn is_special(b: u8) -> bool {
    b == 32 || b == 9 || b == 10 || b == 11 || b == 12 || b == 13 || b == 34 || b == 92
}

/// Whether an argument holds a byte that forces quotes.
pub open spec fn needs_quotes(a: Seq<u8>) -> bool {
    exists|i: int| 0 <= i < a.len() && is_special(#[trigger] a[i])
}

/// A byte inside quotes: `"` and `\` get a `\` in front.
pub open spec fn escape_byte(b: u8) -> Seq<u8> {
    if b == 34 || b == 92 {
        seq![92u8, b]
    } else {
        seq![b]
    }
}

/// The inside of a quoted argument.
pub open spec fn escape(a: Seq<u8>) -> Seq<u8>
    decreases a.len(),
{
    if a.len() == 0 {
        Seq::empty()
    } else {
        escape_byte(a[0]) + escape(a.skip(1))
    }
}

/// An argument on the wire: quoted and escaped where it needs it, as it is
/// otherwise.
pub open spec fn encode_arg(a: Seq<u8>) -> Seq<u8> {
    if needs_quotes(a) {
        seq![34u8] + escape(a) + seq![34u8]
    } else {
        a
    }
}

/// Each argument after a space.
pub open spec fn encode_args(args: Seq<Seq<u8>>) -> Seq<u8>
    decreases args.len(),
{
    if args.len() == 0 {
        Seq::empty()
    } else {
        seq![32u8] + encode_arg(args[0]) + encode_args(args.skip(1))
    }
}

/// The request line of a verb and its arguments, newline included.
pub open spec fn encode_line(verb: Seq<u8>, args: Seq<Seq<u8>>) -> Seq<u8> {
    verb + encode_args(args) + seq![10u8]
}

proof fn lemma_escape_append(a: Seq<u8>, i: int)
    requires
        0 <= i < a.len(),
    ensures
        escape(a.take(i + 1)) == escape(a.take(i)) + escape_byte(a[i]),
    decreases i,
{
    if i == 0 {
        assert(a.take(1).skip(1) =~= Seq::<u8>::empty());
        assert(escape(a.take(0)) =~= Seq::<u8>::empty());
        assert(a.take(1)[0] == a[0]);
        assert(escape(a.take(1).skip(1)) == Seq::<u8>::empty());
        assert(escape(a.take(1)) == escape_byte(a[0]) + escape(a.take(1).skip(1)));
        assert(escape_byte(a[0]) + Seq::<u8>::empty() =~= escape_byte(a[0]));
    } else {
        let t = a.skip(1);
        lemma_escape_append(t, i - 1);
        assert(a.take(i + 1).skip(1) =~= t.take(i));
        assert(a.take(i).skip(1) =~= t.take(i - 1));
        assert(t[i - 1] == a[i]);
        assert(escape(a.take(i + 1)) == escape_byte(a[0]) + escape(t.take(i)));
        assert(escape(a.take(i)) == escape_byte(a[0]) + escape(t.take(i - 1)));
        assert(escape(a.take(i + 1)) =~= escape(a.take(i)) + escape_byte(a[i]));
    }
}

proof fn lemma_encode_args_append(args: Seq<Seq<u8>>, i: int)
    requires
        0 <= i < args.len(),
    ensures
        encode_args(args.take(i + 1)) == encode_args(args.take(i)) + seq![32u8] + encode_arg(
            args[i],
        ),
    decreases i,
{
    if i == 0 {
        assert(args.take(1).skip(1) =~= Seq::<Seq<u8>>::empty());
        assert(encode_args(args.take(0)) =~= Seq::<u8>::empty());
        assert(args.take(1)[0] == args[0]);
        assert(encode_args(args.take(1).skip(1)) == Seq::<u8>::empty());
        assert(encode_args(args.take(1)) == seq![32u8] + encode_arg(args[0]) + encode_args(
            args.take(1).skip(1),
        ));
        assert(encode_args(args.take(1)) =~= Seq::<u8>::empty() + seq![32u8] + encode_arg(args[0]));
    } else {
        let t = args.skip(1);
        lemma_encode_args_append(t, i - 1);
        assert(args.take(i + 1).skip(1) =~= t.take(i));
        assert(args.take(i).skip(1) =~= t.take(i - 1));
        assert(t[i - 1] == args[i]);
        assert(encode_args(args.take(i + 1)) =~= encode_args(args.take(i)) + seq![32u8]
            + encode_arg(args[i]));
    }
}

/// Whether an argument has to be quoted on the wire.
pub fn arg_needs_quotes(a: &[u8]) -> (r: bool)
    ensures
        r == needs_quotes(a@),
{
    let mut i: usize = 0;
    while i < a.len()
        invariant
            0 <= i <= a@.len(),
            forall|k: int| 0 <= k < i ==> !is_special(#[trigger] a@[k]),
        decreases a.len() - i,
    {
        let b = a[i];
        if b == 32 || b == 9 || b == 10 || b == 11 || b == 12 || b == 13 || b == 34 || b == 92 {
            assert(is_special(a@[i as int]));
            return true;
        }
        i = i + 1;
    }
    false
}

/// Appends one argument, quoted where it has to be, to `out`.
pub fn push_arg(out: &mut Vec<u8>, a: &[u8])
    ensures
        final(out)@ == old(out)@ + encode_arg(a@),
{
    if !arg_needs_quotes(a) {
        let mut i: usize = 0;
        while i < a.len()
            invariant
                0 <= i <= a@.len(),
                out@ == old(out)@ + a@.take(i as int),
            decreases a.len() - i,
        {
            out.push(a[i]);
            i = i + 1;
            assert(out@ =~= old(out)@ + a@.take(i as int));
        }
        assert(a@.take(a@.len() as int) =~= a@);
        return;
    }
    out.push(34);
    let ghost start = out@;
    let mut i: usize = 0;
    assert(escape(a@.take(0)) =~= Seq::<u8>::empty());
    while i < a.len()
        invariant
            0 <= i <= a@.len(),
            out@ == start + escape(a@.take(i as int)),
        decreases a.len() - i,
    {
        let b = a[i];
        proof {
            lemma_escape_append(a@, i as int);
        }
        if b == 34 || b == 92 {
            out.push(92);
        }
        out.push(b);
        i = i + 1;
        assert(out@ =~= start + escape(a@.take(i as int)));
    }
    out.push(34);
    assert(a@.take(a@.len() as int) =~= a@);
    assert(final(out)@ =~= old(out)@ + encode_arg(a@));
}


/// The views of a list of arguments.
pub open spec fn args_view(args: Seq<Vec<u8>>) -> Seq<Seq<u8>> {
    args.map_values(|a: Vec<u8>| a@)
}

/// A verb and its arguments, ready to be written as one request line.
#[derive(Debug, Clone, PartialEq, Eq)]
pub struct Command {
    pub verb: Vec<u8>,
    pub args: Vec<Vec<u8>>,
}

impl Command {
    /// A command with this verb and these arguments.
    pub fn new(verb: Vec<u8>, args: Vec<Vec<u8>>) -> (r: Command)
        ensures
            r.verb@ == verb@,
            args_view(r.args@) == args_view(args@),
    {
        Command { verb, args }
    }

    /// Appends the request line of this command to `out`.
    pub fn encode_into(&self, out: &mut Vec<u8>)
        ensures
            final(out)@ == old(out)@ + encode_line(self.verb@, args_view(self.args@)),
    {
        let ghost args = args_view(self.args@);
        let mut i: usize = 0;
        while i < self.verb.len()
            invariant
                0 <= i <= self.verb@.len(),
                out@ == old(out)@ + self.verb@.take(i as int),
            decreases self.verb.len() - i,
        {
            out.push(self.verb[i]);
            i = i + 1;
            assert(out@ =~= old(out)@ + self.verb@.take(i as int));
        }
        assert(self.verb@.take(self.verb@.len() as int) =~= self.verb@);
        let ghost start = out@;
        let mut j: usize = 0;
        assert(encode_args(args.take(0)) =~= Seq::<u8>::empty());
        while j < self.args.len()
            invariant
                0 <= j <= self.args@.len(),
                args == args_view(self.args@),
                out@ == start + encode_args(args.take(j as int)),
            decreases self.args.len() - j,
        {
            proof {
                lemma_encode_args_append(args, j as int);
            }
            out.push(32);
            push_arg(out, self.args[j].as_slice());
            j = j + 1;
            assert(out@ =~= start + encode_args(args.take(j as int)));
        }
        assert(args.take(args.len() as int) =~= args);
        out.push(10);
        assert(final(out)@ =~= old(out)@ + encode_line(self.verb@, args));
    }

    /// The request line of this command.
    pub fn encode(&self) -> (r: Vec<u8>)
        ensures
            r@ == encode_line(self.verb@, args_view(self.args@)),
    {
        let mut out: Vec<u8> = Vec::new();
        self.encode_into(&mut out);
        assert(out@ =~= encode_line(self.verb@, args_view(self.args@)));
        out
    }
}

/// The line that opens a batch.
pub open spec fn list_begin_line() -> Seq<u8> {
    seq![99u8, 111, 109, 109, 97, 110, 100, 95, 108, 105, 115, 116, 95, 111, 107, 95, 98, 101, 103, 105, 110, 10]
}

/// The line that closes a batch.
pub open spec fn list_end_line() -> Seq<u8> {
    seq![99u8, 111, 109, 109, 97, 110, 100, 95, 108, 105, 115, 116, 95, 101, 110, 100, 10]
}

/// The request lines of `cmds`, one after another.
pub open spec fn encode_lines(cmds: Seq<Command>) -> Seq<u8>
    decreases cmds.len(),
{
    if cmds.len() == 0 {
        Seq::empty()
    } else {
        encode_lines(cmds.drop_last()) + encode_line(cmds.last().verb@, args_view(cmds.last().args@))
    }
}

/// A batch: the commands between `command_list_ok_begin` and
/// `command_list_end`, so that the daemon ends each one with `list_OK`.
pub fn encode_list(cmds: &Vec<Command>) -> (r: Vec<u8>)
    ensures
        r@ == list_begin_line() + encode_lines(cmds@) + list_end_line(),
{
    let begin: [u8; 22] = [99, 111, 109, 109, 97, 110, 100, 95, 108, 105, 115, 116, 95, 111, 107, 95, 98, 101, 103, 105, 110, 10];
    let end: [u8; 17] = [99, 111, 109, 109, 97, 110, 100, 95, 108, 105, 115, 116, 95, 101, 110, 100, 10];
    proof {
        assert(begin@ =~= list_begin_line());
        assert(end@ =~= list_end_line());
    }
    let mut out = copy_range(begin.as_slice(), 0, 22);
    assert(out@ =~= list_begin_line());
    let mut i: usize = 0;
    assert(cmds@.take(0) =~= Seq::<Command>::empty());
    while i < cmds.len()
        invariant
            0 <= i <= cmds@.len(),
            out@ == list_begin_line() + encode_lines(cmds@.take(i as int)),
        decreases cmds.len() - i,
    {
        cmds[i].encode_into(&mut out);
        proof {
            assert(cmds@.take(i as int + 1).drop_last() =~= cmds@.take(i as int));
        }
        i = i + 1;
        assert(out@ =~= list_begin_line() + encode_lines(cmds@.take(i as int)));
    }
    assert(cmds@.take(cmds@.len() as int) =~= cmds@);
    let mut k: usize = 0;
    let ghost mid = out@;
    while k < 17
        invariant
            0 <= k <= 17,
            end@ == list_end_line(),
            out@ == mid + end@.take(k as int),
        decreases 17 - k,
    {
        out.push(end[k]);
        k = k + 1;
        assert(out@ =~= mid + end@.take(k as int));
    }
    assert(end@.take(17) =~= end@);
    out
}


/// Reads the inside of a quoted argument up to its closing `"`, taking a
/// `\` as "the next byte as it is": the argument and what follows the quote.
pub open spec fn read_quoted(t: Seq<u8>) -> (Seq<u8>, Seq<u8>)
    decreases t.len(),
{
    if t.len() == 0 {
        (Seq::empty(), Seq::empty())
    } else if t[0] == 34 {
        (Seq::empty(), t.skip(1))
    } else if t[0] == 92 && t.len() >= 2 {
        let r = read_quoted(t.skip(2));
        (seq![t[1]] + r.0, r.1)
    } else {
        let r = read_quoted(t.skip(1));
        (seq![t[0]] + r.0, r.1)
    }
}

/// The words of a request line without its newline, as the daemon splits
/// them: separated by spaces, a word in `"` read by [`read_quoted`].
pub open spec fn tokenize(s: Seq<u8>) -> Seq<Seq<u8>>
    decreases s.len(),
{
    if s.len() == 0 {
        Seq::empty()
    } else if s[0] == 32 {
        tokenize(s.skip(1))
    } else if s[0] == 34 {
        let r = read_quoted(s.skip(1));
        if r.1.len() >= s.len() {
            seq![r.0]
        } else {
            seq![r.0] + tokenize(r.1)
        }
    } else {
        let n = find_from(s, 32, 0);
        if n <= 0 || n > s.len() {
            seq![s]
        } else {
            seq![s.take(n)] + tokenize(s.skip(n))
        }
    }
}

proof fn lemma_read_escaped(a: Seq<u8>, rest: Seq<u8>)
    ensures
        read_quoted(escape(a) + seq![34u8] + rest) == (a, rest),
    decreases a.len(),
{
    let t = escape(a) + seq![34u8] + rest;
    if a.len() == 0 {
        assert(escape(a) =~= Seq::<u8>::empty());
        assert(t =~= seq![34u8] + rest);
        assert(t.skip(1) =~= rest);
        assert(a =~= Seq::<u8>::empty());
    } else {
        let b = a[0];
        let tail = escape(a.skip(1)) + seq![34u8] + rest;
        lemma_read_escaped(a.skip(1), rest);
        assert(a =~= seq![b] + a.skip(1));
        if b == 34 || b == 92 {
            assert(t =~= seq![92u8, b] + tail);
            assert(t.skip(2) =~= tail);
        } else {
            assert(t =~= seq![b] + tail);
            assert(t.skip(1) =~= tail);
        }
    }
}

proof fn lemma_word_end(a: Seq<u8>, rest: Seq<u8>, i: int)
    requires
        0 <= i <= a.len(),
        forall|k: int| 0 <= k < a.len() ==> !is_special(#[trigger] a[k]),
        rest.len() == 0 || rest[0] == 32,
    ensures
        find_from(a + rest, 32, i) == a.len(),
    decreases a.len() - i,
{
    let s = a + rest;
    if i < a.len() {
        assert(s[i] == a[i]);
        lemma_word_end(a, rest, i + 1);
    } else if rest.len() > 0 {
        assert(s[i] == 32);
    }
}

/// Words that start at a space, or where the line ends.
pub open spec fn starts_a_word(rest: Seq<u8>) -> bool {
    rest.len() == 0 || rest[0] == 32
}

/// An argument to which the line's words give back exactly itself.
pub open spec fn is_plain_word(a: Seq<u8>) -> bool {
    a.len() > 0 && !needs_quotes(a)
}

proof fn lemma_tokenize_arg(a: Seq<u8>, rest: Seq<u8>)
    requires
        a.len() > 0,
        starts_a_word(rest),
    ensures
        tokenize(encode_arg(a) + rest) == seq![a] + tokenize(rest),
{
    let s = encode_arg(a) + rest;
    if needs_quotes(a) {
        assert(s =~= seq![34u8] + (escape(a) + seq![34u8] + rest));
        assert(s.skip(1) =~= escape(a) + seq![34u8] + rest);
        lemma_read_escaped(a, rest);
        assert(s[0] == 34);
    } else {
        assert(forall|k: int| 0 <= k < a.len() ==> !is_special(#[trigger] a[k]));
        lemma_word_end(a, rest, 0);
        assert(s[0] == a[0]);
        assert(!is_special(a[0]));
        assert(s.take(a.len() as int) =~= a);
        assert(s.skip(a.len() as int) =~= rest);
    }
}

proof fn lemma_tokenize_args(args: Seq<Seq<u8>>)
    requires
        forall|i: int| 0 <= i < args.len() ==> (#[trigger] args[i]).len() > 0,
    ensures
        tokenize(encode_args(args)) == args,
        starts_a_word(encode_args(args)),
    decreases args.len(),
{
    if args.len() == 0 {
        assert(encode_args(args) =~= Seq::<u8>::empty());
        assert(args =~= Seq::<Seq<u8>>::empty());
    } else {
        let more = encode_args(args.skip(1));
        lemma_tokenize_args(args.skip(1));
        lemma_tokenize_arg(args[0], more);
        let s = encode_args(args);
        assert(s =~= seq![32u8] + (encode_arg(args[0]) + more));
        assert(s.skip(1) =~= encode_arg(args[0]) + more);
        assert(args =~= seq![args[0]] + args.skip(1));
    }
}

/// Encoding a command and splitting the line back into words gives the verb
/// and the arguments back, for a verb that is a plain word and arguments
/// that are not empty.
pub proof fn lemma_encode_round_trip(verb: Seq<u8>, args: Seq<Seq<u8>>)
    requires
        is_plain_word(verb),
        forall|i: int| 0 <= i < args.len() ==> (#[trigger] args[i]).len() > 0,
    ensures
        tokenize(encode_line(verb, args).drop_last()) == seq![verb] + args,
{
    let line = encode_line(verb, args);
    assert(line.drop_last() =~= verb + encode_args(args));
    lemma_tokenize_args(args);
    assert(encode_arg(verb) == verb);
    lemma_tokenize_arg(verb, encode_args(args));
}

} // verus!
