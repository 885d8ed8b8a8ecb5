//! The tool-call fragment assembler.
//!
//! Tool calls arrive split across many delivery fragments, not aligned to
//! any natural boundary: a fragment may carry the call's id, its name, or
//! any piece of its argument text, keyed by a per-turn delivery index. The
//! assembler buffers one partial call per index until the turn's completion
//! signal, then resolves each buffered call whose id and name both arrived.
//!
//! [`lemma_reassembly_correctness`] shows that splitting a call's argument
//! text across any number of fragments reconstructs the same structured
//! arguments value as one unfragmented delivery.

use vstd::prelude::*;

use crate::args::{arg_model, ArgModel};
use crate::args::ArgValue;
use crate::json::{json_arg_of_text, parse_json_text};
use crate::protocol::{calls_model, ToolCall, ToolCallModel};

verus! {

/// A partially delivered tool call: id and name are assigned once, the
/// argument text grows by appending each fragment's piece.
#[derive(Debug)]
pub struct PartialToolCall {
    pub id: Option<String>,
    pub name: Option<String>,
    pub arguments_text: String,
}

/// The model of a [`PartialToolCall`].
pub struct PartialModel {
    pub id: Option<Seq<char>>,
    pub name: Option<Seq<char>>,
    pub arguments_text: Seq<char>,
}

/// The model of optional text.
pub open spec fn opt_text(o: Option<String>) -> Option<Seq<char>> {
    match o {
        Some(s) => Some(s@),
        None => None,
    }
}

impl View for PartialToolCall {
    type V = PartialModel;

    open spec fn view(&self) -> PartialModel {
        PartialModel {
            id: opt_text(self.id),
            name: opt_text(self.name),
            arguments_text: self.arguments_text@,
        }
    }
}

/// A fresh partial call: nothing assigned, no argument text.
pub open spec fn partial_init() -> PartialModel {
    PartialModel { id: None, name: None, arguments_text: Seq::empty() }
}

/// One fragment applied to a partial call: id and name are assigned only
/// where not yet assigned, the piece is appended to the argument text.
pub open spec fn partial_update(
    p: PartialModel,
    id: Option<Seq<char>>,
    name: Option<Seq<char>>,
    piece: Seq<char>,
) -> PartialModel {
    PartialModel {
        id: if p.id is None {
            id
        } else {
            p.id
        },
        name: if p.name is None {
            name
        } else {
            p.name
        },
        arguments_text: p.arguments_text + piece,
    }
}

/// The assembler's buffered state: one entry per delivery index, in the
/// order the indices first arrived.
pub open spec fn asm_on_fragment(
    s: Seq<(u64, PartialModel)>,
    index: u64,
    id: Option<Seq<char>>,
    name: Option<Seq<char>>,
    piece: Seq<char>,
) -> Seq<(u64, PartialModel)>
    decreases s.len(),
{
    if s.len() == 0 {
        seq![(index, partial_update(partial_init(), id, name, piece))]
    } else if s[0].0 == index {
        seq![(index, partial_update(s[0].1, id, name, piece))] + s.drop_first()
    } else {
        seq![s[0]] + asm_on_fragment(s.drop_first(), index, id, name, piece)
    }
}

/// The structured arguments value a buffered call resolves to: empty text
/// becomes an empty object; text that parses becomes the parsed value; text
/// that does not parse is wrapped raw under a fixed key, so a parse failure
/// never aborts assembly of the other calls.
pub open spec fn resolve_arguments(t: Seq<char>) -> ArgModel {
    if t.len() == 0 {
        ArgModel::Obj(Seq::empty())
    } else {
        match json_arg_of_text(t) {
            Some(m) => m,
            None => ArgModel::Obj(seq![("raw"@, ArgModel::Str(t))]),
        }
    }
}

/// The calls emitted on the completion signal: one per buffered entry with
/// both id and name present, in buffered order.
pub open spec fn finalize_calls(s: Seq<(u64, PartialModel)>) -> Seq<ToolCallModel>
    decreases s.len(),
{
    if s.len() == 0 {
        Seq::empty()
    } else {
        let rest = finalize_calls(s.drop_first());
        if s[0].1.id is Some && s[0].1.name is Some {
            seq![
                ToolCallModel {
                    id: s[0].1.id->0,
                    name: s[0].1.name->0,
                    arguments: resolve_arguments(s[0].1.arguments_text),
                },
            ] + rest
        } else {
            rest
        }
    }
}

/// Finalizing `a ++ b` finalizes `a`, then `b`.
pub proof fn lemma_finalize_append(a: Seq<(u64, PartialModel)>, b: Seq<(u64, PartialModel)>)
    ensures
        finalize_calls(a + b) == finalize_calls(a) + finalize_calls(b),
    decreases a.len(),
{
    if a.len() == 0 {
        assert(a + b =~= b);
        assert(finalize_calls(a) + finalize_calls(b) =~= finalize_calls(b));
    } else {
        assert((a + b)[0] == a[0]);
        assert((a + b).drop_first() =~= a.drop_first() + b);
        lemma_finalize_append(a.drop_first(), b);
        if a[0].1.id is Some && a[0].1.name is Some {
            let c = ToolCallModel {
                id: a[0].1.id->0,
                name: a[0].1.name->0,
                arguments: resolve_arguments(a[0].1.arguments_text),
            };
            assert(seq![c] + (finalize_calls(a.drop_first()) + finalize_calls(b)) =~= (seq![c]
                + finalize_calls(a.drop_first())) + finalize_calls(b));
        }
    }
}

/// The fragment assembler.
pub struct ToolCallAssembler {
    partials: Vec<(u64, PartialToolCall)>,
}

impl View for ToolCallAssembler {
    type V = Seq<(u64, PartialModel)>;

    closed spec fn view(&self) -> Seq<(u64, PartialModel)> {
        Seq::new(self.partials@.len(), |i: int| (self.partials@[i].0, self.partials@[i].1@))
    }
}

proof fn lemma_on_fragment_found(
    s: Seq<(u64, PartialModel)>,
    index: u64,
    id: Option<Seq<char>>,
    name: Option<Seq<char>>,
    piece: Seq<char>,
    i: int,
)
    requires
        0 <= i < s.len(),
        s[i].0 == index,
        forall|j: int| 0 <= j < i ==> s[j].0 != index,
    ensures
        asm_on_fragment(s, index, id, name, piece) == s.update(
            i,
            (index, partial_update(s[i].1, id, name, piece)),
        ),
    decreases i,
{
    if i == 0 {
        assert(seq![(index, partial_update(s[0].1, id, name, piece))] + s.drop_first() =~= s.update(
            0,
            (index, partial_update(s[0].1, id, name, piece)),
        ));
    } else {
        lemma_on_fragment_found(s.drop_first(), index, id, name, piece, i - 1);
        assert(seq![s[0]] + s.drop_first().update(
            i - 1,
            (index, partial_update(s[i].1, id, name, piece)),
        ) =~= s.update(i, (index, partial_update(s[i].1, id, name, piece))));
    }
}

proof fn lemma_on_fragment_absent(
    s: Seq<(u64, PartialModel)>,
    index: u64,
    id: Option<Seq<char>>,
    name: Option<Seq<char>>,
    piece: Seq<char>,
)
    requires
        forall|j: int| 0 <= j < s.len() ==> s[j].0 != index,
    ensures
        asm_on_fragment(s, index, id, name, piece) == s.push(
            (index, partial_update(partial_init(), id, name, piece)),
        ),
    decreases s.len(),
{
    if s.len() == 0 {
        assert(seq![(index, partial_update(partial_init(), id, name, piece))] =~= s.push(
            (index, partial_update(partial_init(), id, name, piece)),
        ));
    } else {
        lemma_on_fragment_absent(s.drop_first(), index, id, name, piece);
        assert(seq![s[0]] + s.drop_first().push(
            (index, partial_update(partial_init(), id, name, piece)),
        ) =~= s.push((index, partial_update(partial_init(), id, name, piece))));
    }
}

impl ToolCallAssembler {
    /// A fresh assembler with nothing buffered.
    pub fn new() -> (r: ToolCallAssembler)
        ensures
            r@ == Seq::<(u64, PartialModel)>::empty(),
    {
        let r = ToolCallAssembler { partials: Vec::new() };
        proof {
            assert(r@ =~= Seq::<(u64, PartialModel)>::empty());
        }
        r
    }

    /// Applies one fragment: locates or creates the partial call of the
    /// fragment's index, assigns id and name once, appends the piece.
    pub fn on_fragment(
        &mut self,
        index: u64,
        id: Option<String>,
        name: Option<String>,
        args_piece: &str,
    )
        ensures
            final(self)@ == asm_on_fragment(
                old(self)@,
                index,
                opt_text(id),
                opt_text(name),
                args_piece@,
            ),
    {
        let n = self.partials.len();
        let ghost s0 = self@;
        for i in 0..n
            invariant
                n == self.partials@.len(),
                self@ == s0,
                s0 == old(self)@,
                forall|j: int| 0 <= j < i ==> s0[j].0 != index,
        {
            proof {
                assert(s0[i as int] == (self.partials@[i as int].0, self.partials@[i as int].1@));
            }
            if self.partials[i].0 == index {
                let (key, mut p) = self.partials.remove(i);
                let ghost ppre = p@;
                proof {
                    assert(ppre == s0[i as int].1);
                    assert(key == s0[i as int].0);
                }
                match &p.id {
                    None => p.id = id,
                    Some(_) => {},
                }
                match &p.name {
                    None => p.name = name,
                    Some(_) => {},
                }
                p.arguments_text.append(args_piece);
                proof {
                    assert(p@ == partial_update(ppre, opt_text(id), opt_text(name), args_piece@));
                }
                self.partials.insert(i, (key, p));
                proof {
                    lemma_on_fragment_found(
                        s0,
                        index,
                        opt_text(id),
                        opt_text(name),
                        args_piece@,
                        i as int,
                    );
                    assert(self@ =~= s0.update(
                        i as int,
                        (index, partial_update(ppre, opt_text(id), opt_text(name), args_piece@)),
                    ));
                }
                return ;
            }
        }
        let mut p = PartialToolCall { id: None, name: None, arguments_text: String::new() };
        match &p.id {
            None => p.id = id,
            Some(_) => {},
        }
        match &p.name {
            None => p.name = name,
            Some(_) => {},
        }
        p.arguments_text.append(args_piece);
        proof {
            assert(Seq::<char>::empty() + args_piece@ =~= args_piece@);
            assert(p@ == partial_update(partial_init(), opt_text(id), opt_text(name), args_piece@));
        }
        self.partials.push((index, p));
        proof {
            lemma_on_fragment_absent(s0, index, opt_text(id), opt_text(name), args_piece@);
            assert(self@ =~= s0.push(
                (index, partial_update(partial_init(), opt_text(id), opt_text(name), args_piece@)),
            ));
        }
    }

    /// The completion signal: resolves every buffered call with both id and
    /// name, in buffered order, and clears the buffer. Returns `None` where
    /// no call was complete.
    pub fn on_complete(&mut self) -> (r: Option<Vec<ToolCall>>)
        ensures
            final(self)@ == Seq::<(u64, PartialModel)>::empty(),
            match r {
                Some(calls) => calls_model(calls@) == finalize_calls(old(self)@) && calls@.len()
                    > 0,
                None => finalize_calls(old(self)@).len() == 0,
            },
    {
        let ghost s0 = old(self)@;
        let mut out: Vec<ToolCall> = Vec::new();
        let total = self.partials.len();
        proof {
            assert(s0.subrange(0, 0) =~= Seq::<(u64, PartialModel)>::empty());
            assert(calls_model(out@) =~= finalize_calls(s0.subrange(0, 0)));
        }
        for i in 0..total
            invariant
                self@ == s0,
                total == self.partials@.len(),
                s0.len() == total,
                calls_model(out@) == finalize_calls(s0.subrange(0, i as int)),
        {
            let ghost opre = out@;
            proof {
                assert(s0[i as int] == (self.partials@[i as int].0, self.partials@[i as int].1@));
            }
            let p = &self.partials[i].1;
            match (&p.id, &p.name) {
                (Some(idv), Some(nmv)) => {
                    let args = resolve_args_exec(&p.arguments_text);
                    out.push(ToolCall { id: idv.clone(), name: nmv.clone(), arguments: args });
                },
                _ => {},
            }
            proof {
                reveal_with_fuel(finalize_calls, 3);
                lemma_finalize_append(s0.subrange(0, i as int), seq![s0[i as int]]);
                assert(s0.subrange(0, i as int + 1) =~= s0.subrange(0, i as int) + seq![
                    s0[i as int],
                ]);
                assert(seq![s0[i as int]].drop_first() =~= Seq::<(u64, PartialModel)>::empty());
                assert(calls_model(out@) =~= finalize_calls(s0.subrange(0, i as int + 1)));
            }
        }
        self.partials.clear();
        proof {
            assert(self@ =~= Seq::<(u64, PartialModel)>::empty());
            assert(s0.subrange(0, total as int) =~= s0);
        }
        if out.len() > 0 {
            Some(out)
        } else {
            None
        }
    }

    /// End of input before the completion signal: every buffered partial is
    /// discarded without emission.
    pub fn on_end(&mut self)
        ensures
            final(self)@ == Seq::<(u64, PartialModel)>::empty(),
    {
        self.partials.clear();
        proof {
            assert(self@ =~= Seq::<(u64, PartialModel)>::empty());
        }
    }
}

/// One fragment as the assembler consumes it.
pub struct FragmentModel {
    pub index: u64,
    pub id: Option<Seq<char>>,
    pub name: Option<Seq<char>>,
    pub args_piece: Seq<char>,
}

/// A sequence of fragments applied in order.
pub open spec fn asm_on_fragments(
    s: Seq<(u64, PartialModel)>,
    frags: Seq<FragmentModel>,
) -> Seq<(u64, PartialModel)>
    decreases frags.len(),
{
    if frags.len() == 0 {
        s
    } else {
        asm_on_fragments(
            asm_on_fragment(s, frags[0].index, frags[0].id, frags[0].name, frags[0].args_piece),
            frags.drop_first(),
        )
    }
}

/// The concatenation of a sequence of text pieces.
pub open spec fn concat_texts(pieces: Seq<Seq<char>>) -> Seq<char>
    decreases pieces.len(),
{
    if pieces.len() == 0 {
        Seq::empty()
    } else {
        pieces[0] + concat_texts(pieces.drop_first())
    }
}

/// One tool call delivered as a fragment per piece: the first fragment
/// carries id and name, every fragment carries its piece of the argument
/// text.
pub open spec fn split_fragments(
    index: u64,
    id: Seq<char>,
    name: Seq<char>,
    pieces: Seq<Seq<char>>,
) -> Seq<FragmentModel> {
    Seq::new(
        pieces.len(),
        |i: int|
            FragmentModel {
                index,
                id: if i == 0 {
                    Some(id)
                } else {
                    None
                },
                name: if i == 0 {
                    Some(name)
                } else {
                    None
                },
                args_piece: pieces[i],
            },
    )
}

/// Fragments that carry only argument pieces.
pub open spec fn piece_fragments(index: u64, pieces: Seq<Seq<char>>) -> Seq<FragmentModel> {
    Seq::new(
        pieces.len(),
        |i: int| FragmentModel { index, id: None, name: None, args_piece: pieces[i] },
    )
}

proof fn lemma_feed_pieces(p: PartialModel, index: u64, pieces: Seq<Seq<char>>)
    ensures
        asm_on_fragments(seq![(index, p)], piece_fragments(index, pieces)) == seq![
            (
                index,
                PartialModel {
                    id: p.id,
                    name: p.name,
                    arguments_text: p.arguments_text + concat_texts(pieces),
                },
            ),
        ],
    decreases pieces.len(),
{
    if pieces.len() == 0 {
        assert(p.arguments_text + concat_texts(pieces) =~= p.arguments_text);
        assert(piece_fragments(index, pieces).len() == 0);
    } else {
        let f0 = piece_fragments(index, pieces)[0];
        let p1 = partial_update(p, None, None, pieces[0]);
        assert(seq![(index, p1)] + seq![(index, p)].drop_first() =~= seq![(index, p1)]);
        assert(asm_on_fragment(seq![(index, p)], index, None, None, pieces[0]) == seq![
            (index, p1),
        ]);
        assert(piece_fragments(index, pieces).drop_first() =~= piece_fragments(
            index,
            pieces.drop_first(),
        ));
        lemma_feed_pieces(p1, index, pieces.drop_first());
        assert((p.arguments_text + pieces[0]) + concat_texts(pieces.drop_first())
            =~= p.arguments_text + concat_texts(pieces));
    }
}

/// Reassembly correctness: splitting one tool call's argument text across
/// any number of fragments — the first carrying id and name, each carrying
/// one piece — buffers the same partial call, and so resolves to the same
/// structured arguments value, as one unfragmented delivery of the whole
/// text; the emitted call is exactly the one with that id, that name, and
/// the resolved concatenation.
pub proof fn lemma_reassembly_correctness(
    index: u64,
    id: Seq<char>,
    name: Seq<char>,
    pieces: Seq<Seq<char>>,
)
    requires
        pieces.len() >= 1,
    ensures
        asm_on_fragments(Seq::empty(), split_fragments(index, id, name, pieces))
            == asm_on_fragments(
            Seq::empty(),
            split_fragments(index, id, name, seq![concat_texts(pieces)]),
        ),
        finalize_calls(asm_on_fragments(Seq::empty(), split_fragments(index, id, name, pieces)))
            == seq![
            ToolCallModel {
                id: id,
                name: name,
                arguments: resolve_arguments(concat_texts(pieces)),
            },
        ],
{
    let whole = concat_texts(pieces);
    let p0 = PartialModel { id: Some(id), name: Some(name), arguments_text: pieces[0] };
    let split = split_fragments(index, id, name, pieces);
    assert(Seq::<char>::empty() + pieces[0] =~= pieces[0]);
    assert(asm_on_fragment(Seq::empty(), index, Some(id), Some(name), pieces[0]) == seq![
        (index, p0),
    ]);
    assert(split.drop_first() =~= piece_fragments(index, pieces.drop_first()));
    lemma_feed_pieces(p0, index, pieces.drop_first());
    assert(pieces[0] + concat_texts(pieces.drop_first()) =~= whole);
    let state = seq![(index, PartialModel { id: Some(id), name: Some(name), arguments_text: whole })];
    assert(asm_on_fragments(Seq::empty(), split) == state);

    reveal_with_fuel(asm_on_fragments, 3);
    let single = split_fragments(index, id, name, seq![whole]);
    assert(single[0] == FragmentModel { index, id: Some(id), name: Some(name), args_piece: whole });
    assert(Seq::<char>::empty() + whole =~= whole);
    assert(asm_on_fragment(Seq::empty(), index, Some(id), Some(name), whole) == state);
    assert(single.drop_first().len() == 0);
    assert(asm_on_fragments(Seq::empty(), single) == state);

    reveal_with_fuel(finalize_calls, 3);
    assert(state.drop_first() =~= Seq::<(u64, PartialModel)>::empty());
    assert(finalize_calls(state) =~= seq![
        ToolCallModel { id: id, name: name, arguments: resolve_arguments(whole) },
    ]);
}

/// The resolved arguments of one buffered call.
fn resolve_args_exec(t: &String) -> (r: ArgValue)
    ensures
        r@ == resolve_arguments(t@),
{
    if t.as_str().is_empty() {
        let r = ArgValue::Obj(Vec::new());
        proof {
            assert(r@->Obj_0 =~= Seq::<(Seq<char>, ArgModel)>::empty());
        }
        r
    } else {
        match parse_json_text(t.as_str()) {
            Some(v) => v,
            None => {
                let mut pairs: Vec<(String, ArgValue)> = Vec::new();
                pairs.push(("raw".to_owned(), ArgValue::Str(t.clone())));
                let r = ArgValue::Obj(pairs);
                proof {
                    assert(pairs@.len() == 1);
                    assert(pairs@[0].0@ == "raw"@);
                    assert(arg_model(pairs@[0].1) == ArgModel::Str(t@));
                    assert(r@->Obj_0 =~= seq![("raw"@, ArgModel::Str(t@))]);
                }
                r
            },
        }
    }
}

} // verus!
