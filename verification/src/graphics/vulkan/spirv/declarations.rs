//! The global declarations of a module: each global once, with its id, after the globals
//! that it refers to.

use vstd::prelude::*;

use super::def::{
    all_lower, dfs, dfs_seq, height, lemma_children_lower, lemma_operands_are_children,
    sub_globals, Global, GlobalInstruction, Word,
};
use super::Ids;

verus! {

/// The id of the first declaration of `g` in `decls`, if any.
pub open spec fn lookup<'a>(decls: Seq<(Global<'a>, Word)>, g: Global<'a>) -> Option<Word>
    decreases decls.len(),
{
    if decls.len() == 0 {
        None
    } else {
        let earlier = lookup(decls.drop_last(), g);
        if earlier is Some {
            earlier
        } else if decls.last().0 == g {
            Some(decls.last().1)
        } else {
            None
        }
    }
}

/// The declarations and next id after taking the globals of `stack` from the top and
/// declaring each that is not declared yet.
pub open spec fn declare_stack<'a>(
    decls: Seq<(Global<'a>, Word)>,
    next: int,
    stack: Seq<Global<'a>>,
) -> (Seq<(Global<'a>, Word)>, int)
    decreases stack.len(),
{
    if stack.len() == 0 {
        (decls, next)
    } else {
        let x = stack.last();
        if lookup(decls, x) is Some {
            declare_stack(decls, next, stack.drop_last())
        } else {
            declare_stack(decls.push((x, next as Word)), next + 1, stack.drop_last())
        }
    }
}

/// The declarations and next id after declaring `g`: unchanged when `g` is declared;
/// else the globals that it refers to, deepest first, then `g` itself.
pub open spec fn declare<'a>(decls: Seq<(Global<'a>, Word)>, next: int, g: Global<'a>) -> (Seq<
    (Global<'a>, Word),
>, int) {
    if lookup(decls, g) is Some {
        (decls, next)
    } else {
        let (d, n) = declare_stack(decls, next, sub_globals(g));
        (d.push((g, n as Word)), n + 1)
    }
}

/// The id that declaring `g` gives back.
pub open spec fn declared_id<'a>(decls: Seq<(Global<'a>, Word)>, next: int, g: Global<'a>) -> Word {
    match lookup(decls, g) {
        Some(id) => id,
        None => declare_stack(decls, next, sub_globals(g)).1 as Word,
    }
}

/// The declarations and next id after declaring each of `gs` in turn.
pub open spec fn declare_seq<'a>(
    decls: Seq<(Global<'a>, Word)>,
    next: int,
    gs: Seq<Global<'a>>,
) -> (Seq<(Global<'a>, Word)>, int)
    decreases gs.len(),
{
    if gs.len() == 0 {
        (decls, next)
    } else {
        let (d, n) = declare_seq(decls, next, gs.drop_last());
        declare(d, n, gs.last())
    }
}

/// The words of one declaration: its instructions with the ids filled in.
pub open spec fn declaration_words<'a>(
    decls: Seq<(Global<'a>, Word)>,
    instructions: Seq<GlobalInstruction<'a>>,
    id: Word,
) -> Seq<Word>
    decreases instructions.len(),
{
    if instructions.len() == 0 {
        seq![]
    } else {
        declaration_words(decls, instructions.drop_last(), id) + match instructions.last() {
            GlobalInstruction::Word(v) => seq![v],
            GlobalInstruction::Result => seq![id],
            GlobalInstruction::SubGlobal(a) => match lookup(decls, a) {
                Some(a_id) => seq![a_id],
                None => seq![],
            },
        }
    }
}

/// The words of the declarations `shown`, with ids as `decls` gives them.
pub open spec fn declarations_words<'a>(
    decls: Seq<(Global<'a>, Word)>,
    shown: Seq<(Global<'a>, Word)>,
) -> Seq<Word>
    decreases shown.len(),
{
    if shown.len() == 0 {
        seq![]
    } else {
        declarations_words(decls, shown.drop_last()) + declaration_words(
            decls,
            shown.last().0.instructions(),
            shown.last().1,
        )
    }
}

/// Every declared global can be written out.
pub open spec fn all_encodable(decls: Seq<(Global, Word)>) -> bool {
    forall|i: int| 0 <= i < decls.len() ==> (#[trigger] decls[i]).0.is_encodable()
}

/// Declaring never lowers the next id.
pub proof fn lemma_declare_stack_next<'a>(
    decls: Seq<(Global<'a>, Word)>,
    next: int,
    stack: Seq<Global<'a>>,
)
    ensures
        declare_stack(decls, next, stack).1 >= next,
        stack.len() > 0 && lookup(decls, stack.last()) is None ==> declare_stack(
            decls,
            next,
            stack,
        ).1 > next,
    decreases stack.len(),
{
    if stack.len() > 0 {
        let x = stack.last();
        if lookup(decls, x) is Some {
            lemma_declare_stack_next(decls, next, stack.drop_last());
        } else {
            lemma_declare_stack_next(decls.push((x, next as Word)), next + 1, stack.drop_last());
        }
    }
}

pub struct GlobalDeclarations<'a> {
    pub(super) globals: Vec<(Global<'a>, Word)>,
}

impl<'a> GlobalDeclarations<'a> {
    pub(super) fn new() -> (r: Self)
        ensures
            r.globals@ == Seq::<(Global<'a>, Word)>::empty(),
    {
        Self { globals: Vec::new() }
    }

    /// The id of `global`, declaring it (after the globals it refers to) if need be.
    pub(super) fn get_global_id(&mut self, ids: &mut Ids, global: Global<'a>) -> (r: Word)
        requires
            declare(old(self).globals@, old(ids).next_id as int, global).1 <= u32::MAX,
        ensures
            (final(self).globals@, final(ids).next_id as int) == declare(
                old(self).globals@,
                old(ids).next_id as int,
                global,
            ),
            r == declared_id(old(self).globals@, old(ids).next_id as int, global),
    {
        match self.check_global_id(&global) {
            Some(id) => {
                return id;
            },
            None => {},
        }
        let ghost decls0 = self.globals@;
        let ghost next0 = ids.next_id as int;
        let mut global_stack: Vec<Global<'a>> = Vec::new();
        global.push_sub_globals(&mut global_stack);
        assert(global_stack@ =~= sub_globals(global));
        let ghost target = declare_stack(decls0, next0, sub_globals(global));
        while global_stack.len() > 0
            invariant
                declare_stack(self.globals@, ids.next_id as int, global_stack@) == target,
                target.1 < u32::MAX,
            decreases global_stack@.len(),
        {
            let ghost stack = global_stack@;
            let global_test = global_stack.pop().unwrap();
            assert(global_stack@ =~= stack.drop_last());
            let found = self.check_global_id(&global_test);
            if found.is_none() {
                proof {
                    lemma_declare_stack_next(self.globals@, ids.next_id as int, stack);
                    lemma_declare_stack_next(
                        self.globals@.push((global_test, ids.next_id)),
                        ids.next_id + 1,
                        global_stack@,
                    );
                }
                let id: Word = ids.get_next_id();
                self.globals.push((global_test, id));
            }
        }
        let id: Word = ids.get_next_id();
        self.globals.push((global, id));
        id
    }

    /// The id of `global` if it is declared.
    pub(super) fn check_global_id(&self, global: &Global<'a>) -> (r: Option<Word>)
        ensures
            r == lookup(self.globals@, *global),
    {
        let mut i: usize = 0;
        while i < self.globals.len()
            invariant
                i <= self.globals@.len(),
                lookup(self.globals@.take(i as int), *global) is None,
            decreases self.globals@.len() - i,
        {
            proof {
                assert(self.globals@.take(i + 1).drop_last() =~= self.globals@.take(i as int));
            }
            if self.globals[i].0.same(global) {
                proof {
                    lemma_lookup_prefix(self.globals@, (i + 1) as int, *global);
                }
                return Some(self.globals[i].1);
            }
            i += 1;
        }
        assert(self.globals@.take(i as int) =~= self.globals@);
        None
    }

    /// Appends the words that declare every global, in order.
    pub(super) fn add_words(&self, word_stream: &mut Vec<Word>)
        requires
            all_encodable(self.globals@),
        ensures
            final(word_stream)@ == old(word_stream)@ + declarations_words(
                self.globals@,
                self.globals@,
            ),
    {
        let ghost start = word_stream@;
        let mut global_instructions: Vec<GlobalInstruction<'a>> = Vec::new();
        let mut i: usize = 0;
        while i < self.globals.len()
            invariant
                i <= self.globals@.len(),
                all_encodable(self.globals@),
                word_stream@ == start + declarations_words(
                    self.globals@,
                    self.globals@.take(i as int),
                ),
            decreases self.globals@.len() - i,
        {
            let g = self.globals[i].0;
            let g_id: Word = self.globals[i].1;
            global_instructions.clear();
            assert(all_encodable(self.globals@) ==> self.globals@[i as int].0.is_encodable());
            g.get_instructions(&mut global_instructions);
            assert(global_instructions@ =~= g.instructions());
            let ghost before = word_stream@;
            let mut k: usize = 0;
            while k < global_instructions.len()
                invariant
                    k <= global_instructions@.len(),
                    global_instructions@ == g.instructions(),
                    word_stream@ == before + declaration_words(
                        self.globals@,
                        global_instructions@.take(k as int),
                        g_id,
                    ),
                decreases global_instructions@.len() - k,
            {
                match global_instructions[k] {
                    GlobalInstruction::Word(v) => {
                        word_stream.push(v);
                    },
                    GlobalInstruction::Result => {
                        word_stream.push(g_id);
                    },
                    GlobalInstruction::SubGlobal(a) => {
                        match self.check_global_id(&a) {
                            Some(a_id) => {
                                word_stream.push(a_id);
                            },
                            None => {},
                        }
                    },
                }
                proof {
                    let t = global_instructions@.take(k + 1);
                    assert(t.drop_last() =~= global_instructions@.take(k as int));
                }
                k += 1;
            }
            proof {
                assert(global_instructions@.take(k as int) =~= g.instructions());
                let t = self.globals@.take(i + 1);
                assert(t.drop_last() =~= self.globals@.take(i as int));
            }
            i += 1;
        }
        assert(self.globals@.take(i as int) =~= self.globals@);
    }
}

/// `lookup` on a prefix that ends with a match.
proof fn lemma_lookup_prefix<'a>(decls: Seq<(Global<'a>, Word)>, n: int, g: Global<'a>)
    requires
        0 < n <= decls.len(),
        lookup(decls.take(n - 1), g) is None,
        decls[n - 1].0 == g,
    ensures
        lookup(decls, g) == Some(decls[n - 1].1),
    decreases decls.len(),
{
    if decls.len() > n {
        assert(decls.drop_last().take(n - 1) =~= decls.take(n - 1));
        lemma_lookup_prefix(decls.drop_last(), n, g);
    } else {
        assert(decls.take(n - 1) =~= decls.drop_last());
    }
}


/// `lookup` in a concatenation: the first part first.
pub proof fn lemma_lookup_append<'a>(
    d: Seq<(Global<'a>, Word)>,
    e: Seq<(Global<'a>, Word)>,
    g: Global<'a>,
)
    ensures
        lookup(d + e, g) == if lookup(d, g) is Some {
            lookup(d, g)
        } else {
            lookup(e, g)
        },
    decreases e.len(),
{
    if e.len() == 0 {
        assert(d + e =~= d);
    } else {
        assert((d + e).drop_last() =~= d + e.drop_last());
        lemma_lookup_append(d, e.drop_last(), g);
    }
}

/// `lookup` finds a global exactly when some declaration is of it.
pub proof fn lemma_lookup_some<'a>(d: Seq<(Global<'a>, Word)>, g: Global<'a>)
    ensures
        lookup(d, g) is Some <==> exists|i: int| 0 <= i < d.len() && (#[trigger] d[i]).0 == g,
    decreases d.len(),
{
    if d.len() > 0 {
        lemma_lookup_some(d.drop_last(), g);
        if lookup(d.drop_last(), g) is Some {
            let i = choose|i: int| 0 <= i < d.drop_last().len() && (#[trigger] d.drop_last()[i]).0 == g;
            assert(d[i].0 == g);
        }
        if exists|i: int| 0 <= i < d.len() && (#[trigger] d[i]).0 == g {
            let i = choose|i: int| 0 <= i < d.len() && (#[trigger] d[i]).0 == g;
            if i < d.len() - 1 {
                assert(d.drop_last()[i].0 == g);
            }
        }
    }
}

/// Taking a stack of globals only appends declarations, each of a global from the stack,
/// with consecutive ids from `next`.
pub proof fn lemma_declare_stack_extends<'a>(
    d: Seq<(Global<'a>, Word)>,
    next: int,
    s: Seq<Global<'a>>,
)
    ensures
        ({
            let (d2, n2) = declare_stack(d, next, s);
            &&& d2.len() >= d.len()
            &&& d2.len() <= d.len() + s.len()
            &&& d2.take(d.len() as int) == d
            &&& n2 == next + (d2.len() - d.len())
            &&& forall|j: int| d.len() <= j < d2.len() ==> {
                &&& s.contains(#[trigger] d2[j].0)
                &&& d2[j].1 == (next + (j - d.len())) as Word
            }
        }),
    decreases s.len(),
{
    if s.len() > 0 {
        let x = s.last();
        let rest = s.drop_last();
        if lookup(d, x) is Some {
            lemma_declare_stack_extends(d, next, rest);
            let d2 = declare_stack(d, next, rest).0;
            assert forall|j: int| d.len() <= j < d2.len() implies s.contains(#[trigger] d2[j].0) by {
                let k = choose|k: int| 0 <= k < rest.len() && rest[k] == d2[j].0;
                assert(s[k] == d2[j].0);
            }
        } else {
            let d1 = d.push((x, next as Word));
            lemma_declare_stack_extends(d1, next + 1, rest);
            let d2 = declare_stack(d1, next + 1, rest).0;
            assert(d2.take(d.len() as int) =~= d1.take(d1.len() as int).take(d.len() as int));
            assert(d2[d.len() as int] == d1[d.len() as int]);
            assert forall|j: int| d.len() <= j < d2.len() implies {
                &&& s.contains(#[trigger] d2[j].0)
                &&& d2[j].1 == (next + (j - d.len())) as Word
            } by {
                if j == d.len() {
                    assert(s[s.len() - 1] == x);
                } else {
                    let k = choose|k: int| 0 <= k < rest.len() && rest[k] == d2[j].0;
                    assert(s[k] == d2[j].0);
                }
            }
        }
    }
}

/// Every global that a walk visits is no higher than the global it starts from.
pub proof fn lemma_dfs_height<'a>(g: Global<'a>)
    ensures
        forall|i: int| 0 <= i < dfs(g).len() ==> height(#[trigger] dfs(g)[i]) <= height(g),
    decreases height(g), 1nat, 0nat,
{
    lemma_children_lower(g);
    lemma_dfs_seq_height(g.children(), height(g));
}

/// Every global that the walks from `s` visit is lower than `h`.
pub proof fn lemma_dfs_seq_height<'a>(s: Seq<Global<'a>>, h: nat)
    ensures
        all_lower(dfs_seq(s, h), h),
    decreases h, 0nat, s.len(),
{
    if s.len() > 0 && height(s[0]) < h {
        lemma_dfs_height(s[0]);
        lemma_dfs_seq_height(s.drop_first(), h);
        let a = dfs(s[0]);
        let b = dfs_seq(s.drop_first(), h);
        assert forall|i: int| 0 <= i < (a + b).len() implies height(#[trigger] (a + b)[i]) < h by {
            if i < a.len() {
                assert((a + b)[i] == a[i]);
            } else {
                assert((a + b)[i] == b[i - a.len()]);
            }
        }
    }
}

/// A global is not among the globals that it refers to.
pub proof fn lemma_not_own_sub_global<'a>(g: Global<'a>)
    ensures
        !sub_globals(g).contains(g),
{
    lemma_dfs_seq_height(g.children(), height(g));
}

/// After declaring `g`, `lookup` gives `g` the id that declaring gave back, the earlier
/// declarations stay as they were, and only new ids from `next` on are handed out.
pub proof fn law_declare<'a>(d: Seq<(Global<'a>, Word)>, next: int, g: Global<'a>)
    ensures
        ({
            let (d2, n2) = declare(d, next, g);
            &&& lookup(d2, g) == Some(declared_id(d, next, g))
            &&& d2.len() >= d.len()
            &&& d2.len() <= d.len() + sub_globals(g).len() + 1
            &&& d2.take(d.len() as int) == d
            &&& n2 == next + (d2.len() - d.len())
            &&& forall|j: int| d.len() <= j < d2.len() ==> (#[trigger] d2[j]).1 == (next + (j
                - d.len())) as Word
            &&& forall|x: Global<'a>| lookup(d, x) is Some ==> #[trigger] lookup(d2, x) == lookup(d, x)
        }),
{
    let (d2, n2) = declare(d, next, g);
    if lookup(d, g) is Some {
        assert(d2.take(d.len() as int) =~= d);
    } else {
        let (d1, n1) = declare_stack(d, next, sub_globals(g));
        lemma_declare_stack_extends(d, next, sub_globals(g));
        lemma_not_own_sub_global(g);
        let e = d1.skip(d.len() as int);
        assert(d1 =~= d + e);
        lemma_lookup_append(d, e, g);
        lemma_lookup_some(e, g);
        if lookup(e, g) is Some {
            let i = choose|i: int| 0 <= i < e.len() && (#[trigger] e[i]).0 == g;
            assert(d1[d.len() + i].0 == g);
            assert(sub_globals(g).contains(g));
        }
        assert(d2 =~= d + e.push((g, n1 as Word)));
        lemma_lookup_append(d, e.push((g, n1 as Word)), g);
        assert(e.push((g, n1 as Word)).drop_last() =~= e);
        assert(d2.take(d.len() as int) =~= d);
        assert forall|x: Global<'a>| lookup(d, x) is Some implies #[trigger] lookup(d2, x) == lookup(d, x) by {
            lemma_lookup_append(d, e.push((g, n1 as Word)), x);
        }
        assert forall|j: int| d.len() <= j < d2.len() implies (#[trigger] d2[j]).1 == (next + (j
            - d.len())) as Word by {
            if j < d1.len() {
                assert(d2[j] == d1[j]);
            }
        }
    }
}


/// Each global of `s` that refers to another has it later in `s`.
pub open spec fn closed_after(s: Seq<Global>) -> bool {
    forall|k: int, c: Global|
        0 <= k < s.len() && #[trigger] s[k].children().contains(c) ==> exists|m: int|
            k < m < s.len() && #[trigger] s[m] == c
}

/// The declarations are consistent: each global is declared once, ids increase from 1 and
/// stay below `next`, and every global is declared after the globals it refers to.
pub open spec fn declarations_wf(d: Seq<(Global, Word)>, next: int) -> bool {
    &&& forall|i: int, j: int| 0 <= i < j < d.len() ==> (#[trigger] d[i]).0 != (#[trigger] d[j]).0
    &&& forall|i: int, j: int| 0 <= i < j < d.len() ==> (#[trigger] d[i]).1 < (#[trigger] d[j]).1
    &&& forall|i: int| 0 <= i < d.len() ==> 1 <= (#[trigger] d[i]).1 < next
    &&& forall|i: int, c: Global|
        0 <= i < d.len() && #[trigger] d[i].0.children().contains(c) ==> exists|j: int|
            0 <= j < i && (#[trigger] d[j]).0 == c
}

proof fn lemma_closed_after_append<'a>(a: Seq<Global<'a>>, b: Seq<Global<'a>>)
    requires
        closed_after(a),
        closed_after(b),
    ensures
        closed_after(a + b),
{
    assert forall|k: int, c: Global|
        0 <= k < (a + b).len() && #[trigger] (a + b)[k].children().contains(c) implies exists|m: int|
        k < m < (a + b).len() && #[trigger] (a + b)[m] == c by {
        if k < a.len() {
            assert(a[k] == (a + b)[k]);
            let m = choose|m: int| k < m < a.len() && #[trigger] a[m] == c;
            assert((a + b)[m] == a[m]);
        } else {
            assert(b[k - a.len()] == (a + b)[k]);
            let m = choose|m: int| k - a.len() < m < b.len() && #[trigger] b[m] == c;
            assert((a + b)[m + a.len()] == b[m]);
        }
    }
}

/// A walk is closed: every global it visits has the globals it refers to visited later.
pub proof fn lemma_dfs_closed<'a>(g: Global<'a>)
    ensures
        closed_after(dfs(g)),
    decreases height(g), 1nat, 0nat,
{
    lemma_children_lower(g);
    let t = dfs_seq(g.children(), height(g));
    lemma_dfs_seq_closed(g.children(), height(g));
    let s = dfs(g);
    assert(s == seq![g] + t);
    assert forall|k: int, c: Global|
        0 <= k < s.len() && #[trigger] s[k].children().contains(c) implies exists|m: int|
        k < m < s.len() && #[trigger] s[m] == c by {
        if k == 0 {
            let i = choose|i: int| 0 <= i < g.children().len() && g.children()[i] == c;
            assert(t.contains(g.children()[i]));
            let m = choose|m: int| 0 <= m < t.len() && t[m] == c;
            assert(s[m + 1] == t[m]);
        } else {
            assert(s[k] == t[k - 1]);
            let m = choose|m: int| k - 1 < m < t.len() && #[trigger] t[m] == c;
            assert(s[m + 1] == t[m]);
        }
    }
}

/// The walks from `s` are closed and visit every global of `s`.
pub proof fn lemma_dfs_seq_closed<'a>(s: Seq<Global<'a>>, h: nat)
    requires
        all_lower(s, h),
    ensures
        closed_after(dfs_seq(s, h)),
        forall|i: int| 0 <= i < s.len() ==> dfs_seq(s, h).contains(#[trigger] s[i]),
    decreases h, 0nat, s.len(),
{
    if s.len() > 0 {
        assert(height(s[0]) < h);
        let a = dfs(s[0]);
        let b = dfs_seq(s.drop_first(), h);
        assert(all_lower(s.drop_first(), h)) by {
            assert forall|i: int| 0 <= i < s.drop_first().len() implies height(
                #[trigger] s.drop_first()[i],
            ) < h by {
                assert(s.drop_first()[i] == s[i + 1]);
            }
        }
        lemma_dfs_closed(s[0]);
        lemma_dfs_seq_closed(s.drop_first(), h);
        lemma_closed_after_append(a, b);
        assert forall|i: int| 0 <= i < s.len() implies dfs_seq(s, h).contains(#[trigger] s[i]) by {
            if i == 0 {
                assert((a + b)[0] == a[0]);
            } else {
                assert(s.drop_first()[i - 1] == s[i]);
                let m = choose|m: int| 0 <= m < b.len() && b[m] == s[i];
                assert((a + b)[m + a.len()] == b[m]);
            }
        }
    }
}

/// Every global that the declaration of a global of `s` names as an operand comes later in
/// `s`.
pub open spec fn operands_follow<'a>(s: Seq<Global<'a>>) -> bool {
    forall|p: int, i: int|
        0 <= p < s.len() && 0 <= i < s[p].instructions().len() && (#[trigger] s[p].instructions()[i]) is SubGlobal
            ==> exists|q: int| p < q < s.len() && GlobalInstruction::SubGlobal(s[q]) == s[p].instructions()[i]
}

/// `push_sub_globals` pushes every global that the declaration of `g` names as an operand,
/// and pushes each global before every global that its own declaration names: popping the
/// stack meets each global after those it depends on.
pub proof fn law_sub_globals_follow_dependencies<'a>(g: Global<'a>)
    ensures
        forall|i: int|
            0 <= i < g.instructions().len() && (#[trigger] g.instructions()[i]) is SubGlobal
                ==> exists|q: int|
                0 <= q < sub_globals(g).len() && GlobalInstruction::SubGlobal(sub_globals(g)[q])
                    == g.instructions()[i],
        operands_follow(sub_globals(g)),
{
    let s = sub_globals(g);
    let c = g.children();
    lemma_children_lower(g);
    lemma_dfs_seq_closed(c, height(g));
    assert forall|i: int|
        0 <= i < g.instructions().len() && (#[trigger] g.instructions()[i]) is SubGlobal
            implies exists|q: int|
            0 <= q < s.len() && GlobalInstruction::SubGlobal(s[q]) == g.instructions()[i] by {
        lemma_operands_are_children(g, i);
        let k = choose|k: int|
            0 <= k < c.len() && GlobalInstruction::SubGlobal(c[k]) == g.instructions()[i];
        assert(s.contains(c[k]));
    }
    assert forall|p: int, i: int|
        0 <= p < s.len() && 0 <= i < s[p].instructions().len() && (#[trigger] s[p].instructions()[i]) is SubGlobal
            implies exists|q: int| p < q < s.len() && GlobalInstruction::SubGlobal(s[q]) == s[p].instructions()[i] by {
        lemma_operands_are_children(s[p], i);
        let k = choose|k: int|
            0 <= k < s[p].children().len() && GlobalInstruction::SubGlobal(s[p].children()[k])
                == s[p].instructions()[i];
        assert(s[p].children().contains(s[p].children()[k]));
        let q = choose|q: int| p < q < s.len() && #[trigger] s[q] == s[p].children()[k];
    }
}

/// Taking a stack whose globals have the globals they refer to later on the stack or
/// declared keeps the declarations consistent and declares every global of the stack.
proof fn lemma_declare_stack_wf<'a>(d: Seq<(Global<'a>, Word)>, next: int, s: Seq<Global<'a>>)
    requires
        declarations_wf(d, next),
        next >= 1,
        declare_stack(d, next, s).1 <= u32::MAX,
        forall|k: int, c: Global<'a>|
            0 <= k < s.len() && #[trigger] s[k].children().contains(c) ==> (exists|m: int|
                k < m < s.len() && #[trigger] s[m] == c) || lookup(d, c) is Some,
    ensures
        declarations_wf(declare_stack(d, next, s).0, declare_stack(d, next, s).1),
        forall|i: int| 0 <= i < s.len() ==> lookup(declare_stack(d, next, s).0, #[trigger] s[i]) is Some,
        forall|x: Global<'a>| lookup(d, x) is Some ==> lookup(declare_stack(d, next, s).0, x) is Some,
    decreases s.len(),
{
    if s.len() > 0 {
        let x = s.last();
        let rest = s.drop_last();
        let d1 = if lookup(d, x) is Some { d } else { d.push((x, next as Word)) };
        let n1 = if lookup(d, x) is Some { next } else { next + 1 };
        assert(declare_stack(d, next, s) == declare_stack(d1, n1, rest));
        lemma_declare_stack_next(d1, n1, rest);
        assert forall|c: Global<'a>| x.children().contains(c) implies lookup(d, c) is Some by {
            assert(s[s.len() - 1] == x);
        }
        if lookup(d, x) is None {
            lemma_lookup_some(d, x);
            assert forall|i: int, j: int| 0 <= i < j < d1.len() implies (#[trigger] d1[i]).0 != (
            #[trigger] d1[j]).0 by {
                if j == d.len() {
                    assert(d[i] == d1[i]);
                }
            }
            assert forall|i: int, c: Global|
                0 <= i < d1.len() && #[trigger] d1[i].0.children().contains(c) implies exists|j: int|
                0 <= j < i && (#[trigger] d1[j]).0 == c by {
                if i == d.len() {
                    lemma_lookup_some(d, c);
                    let j = choose|j: int| 0 <= j < d.len() && (#[trigger] d[j]).0 == c;
                    assert(d1[j] == d[j]);
                } else {
                    assert(d1[i] == d[i]);
                    let j = choose|j: int| 0 <= j < i && (#[trigger] d[j]).0 == c;
                    assert(d1[j] == d[j]);
                }
            }
        }
        assert forall|x2: Global<'a>| lookup(d, x2) is Some implies lookup(d1, x2) is Some by {
            if lookup(d, x) is None {
                lemma_lookup_append(d, seq![(x, next as Word)], x2);
                assert(d1 == d + seq![(x, next as Word)]);
            }
        }
        assert(lookup(d1, x) is Some) by {
            if lookup(d, x) is None {
                lemma_lookup_append(d, seq![(x, next as Word)], x);
                assert(d1 == d + seq![(x, next as Word)]);
                assert(seq![(x, next as Word)].drop_last() =~= Seq::<(Global<'a>, Word)>::empty());
            }
        }
        assert forall|k: int, c: Global<'a>|
            0 <= k < rest.len() && #[trigger] rest[k].children().contains(c) implies (exists|m: int|
            k < m < rest.len() && #[trigger] rest[m] == c) || lookup(d1, c) is Some by {
            assert(s[k] == rest[k]);
            if lookup(d, c) is None {
                let m = choose|m: int| k < m < s.len() && #[trigger] s[m] == c;
                if m == s.len() - 1 {
                    assert(c == x);
                } else {
                    assert(rest[m] == s[m]);
                }
            }
        }
        lemma_declare_stack_wf(d1, n1, rest);
        assert forall|i: int| 0 <= i < s.len() implies lookup(declare_stack(d, next, s).0, #[trigger] s[i]) is Some by {
            if i < s.len() - 1 {
                assert(rest[i] == s[i]);
            }
        }
    }
}

/// Declaring a global keeps the declarations consistent: each global once, ids increasing
/// and below the next id, and every global after the globals it refers to.
pub proof fn law_declare_keeps_declarations_consistent<'a>(
    d: Seq<(Global<'a>, Word)>,
    next: int,
    g: Global<'a>,
)
    requires
        declarations_wf(d, next),
        next >= 1,
        declare(d, next, g).1 <= u32::MAX,
    ensures
        declarations_wf(declare(d, next, g).0, declare(d, next, g).1),
{
    if lookup(d, g) is None {
        let s = sub_globals(g);
        lemma_children_lower(g);
        lemma_dfs_seq_closed(g.children(), height(g));
        assert forall|k: int, c: Global<'a>|
            0 <= k < s.len() && #[trigger] s[k].children().contains(c) implies (exists|m: int|
            k < m < s.len() && #[trigger] s[m] == c) || lookup(d, c) is Some by {
        }
        lemma_declare_stack_wf(d, next, s);
        law_declare(d, next, g);
        let (d1, n1) = declare_stack(d, next, s);
        lemma_declare_stack_next(d, next, s);
        let d2 = d1.push((g, n1 as Word));
        lemma_lookup_append(d1, seq![(g, n1 as Word)], g);
        assert(d2 == d1 + seq![(g, n1 as Word)]);
        assert(lookup(d1, g) is None) by {
            lemma_declare_stack_extends(d, next, s);
            lemma_not_own_sub_global(g);
            let e = d1.skip(d.len() as int);
            assert(d1 =~= d + e);
            lemma_lookup_append(d, e, g);
            lemma_lookup_some(e, g);
            if lookup(e, g) is Some {
                let i = choose|i: int| 0 <= i < e.len() && (#[trigger] e[i]).0 == g;
                assert(d1[d.len() + i].0 == g);
            }
        }
        lemma_lookup_some(d1, g);
        assert forall|i: int, j: int| 0 <= i < j < d2.len() implies (#[trigger] d2[i]).0 != (
        #[trigger] d2[j]).0 by {
            if j == d1.len() {
                assert(d1[i] == d2[i]);
            }
        }
        assert forall|i: int, c: Global|
            0 <= i < d2.len() && #[trigger] d2[i].0.children().contains(c) implies exists|j: int|
            0 <= j < i && (#[trigger] d2[j]).0 == c by {
            if i == d1.len() {
                let k = choose|k: int| 0 <= k < g.children().len() && g.children()[k] == c;
                assert(s.contains(g.children()[k]));
                let m = choose|m: int| 0 <= m < s.len() && s[m] == c;
                assert(lookup(d1, s[m]) is Some);
                lemma_lookup_some(d1, c);
                let j = choose|j: int| 0 <= j < d1.len() && (#[trigger] d1[j]).0 == c;
                assert(d2[j] == d1[j]);
            } else {
                assert(d2[i] == d1[i]);
                let j = choose|j: int| 0 <= j < i && (#[trigger] d1[j]).0 == c;
                assert(d2[j] == d1[j]);
            }
        }
    }
}


/// Declaring a global twice is declaring it once: the second time changes nothing and
/// gives back the same id.
pub proof fn law_declare_idempotent<'a>(d: Seq<(Global<'a>, Word)>, next: int, g: Global<'a>)
    ensures
        declare(declare(d, next, g).0, declare(d, next, g).1, g) == declare(d, next, g),
        declared_id(declare(d, next, g).0, declare(d, next, g).1, g) == declared_id(d, next, g),
{
    law_declare(d, next, g);
}

/// Declaring a global, as `get_global_id` does: a global already declared gives back its
/// id and changes nothing, consuming no id; a new one is declared last, with the last id
/// handed out, after the globals it refers to that were not declared yet, each new
/// declaration taking the next id in turn. Earlier declarations stay, the global is found
/// with the id given back, and consistent declarations stay consistent.
pub proof fn law_declaring_a_global<'a>(d: Seq<(Global<'a>, Word)>, next: int, g: Global<'a>)
    requires
        0 <= next,
        declare(d, next, g).1 <= u32::MAX,
    ensures
        ({
            let (d2, n2) = declare(d, next, g);
            let id = declared_id(d, next, g);
            &&& lookup(d, g) matches Some(old_id) ==> d2 == d && n2 == next && id == old_id
            &&& lookup(d, g) is None ==> id == n2 - 1 && d2.last() == (g, id) && forall|j: int|
                d.len() <= j < d2.len() ==> next <= (#[trigger] d2[j]).1 < n2
            &&& d2.take(d.len() as int) == d
            &&& lookup(d2, g) == Some(id)
            &&& declarations_wf(d, next) && next >= 1 ==> declarations_wf(d2, n2)
        }),
{
    law_declare(d, next, g);
    let (d2, n2) = declare(d, next, g);
    if lookup(d, g) is None {
        let (d1, n1) = declare_stack(d, next, sub_globals(g));
        lemma_declare_stack_next(d, next, sub_globals(g));
        assert(d2 == d1.push((g, n1 as Word)));
        assert(n2 == n1 + 1);
        assert forall|j: int| d.len() <= j < d2.len() implies next <= (#[trigger] d2[j]).1 < n2 by {
            assert(d2[j].1 == (next + (j - d.len())) as Word);
        }
    }
    if declarations_wf(d, next) && next >= 1 {
        law_declare_keeps_declarations_consistent(d, next, g);
    }
}

/// With no declarations at all, the declarations are consistent.
pub proof fn lemma_empty_declarations_wf<'a>(d: Seq<(Global<'a>, Word)>, next: int)
    requires
        d.len() == 0,
    ensures
        declarations_wf(d, next),
{
}

/// Consistency survives handing out more ids.
pub proof fn lemma_declarations_wf_next<'a>(d: Seq<(Global<'a>, Word)>, next: int, later: int)
    requires
        declarations_wf(d, next),
        next <= later,
    ensures
        declarations_wf(d, later),
{
}

} // verus!
