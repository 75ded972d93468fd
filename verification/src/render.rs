//! The deterministic debug rendering of a function target.
//!
//! The dump is diffable test fixture material: a header line, one `var` line
//! per pass-introduced temporary, and, per instruction, the annotation lines
//! the registered formatters contribute — in registration order — followed by
//! the instruction's own rendering.  Rendering the same snapshot with the
//! same formatter registration twice is byte-identical, which the contracts
//! here pin down: every piece of text equals a spec-level function of the
//! target alone.

use crate::function_target::{AnnotationFormatter, FunctionTarget, spec_annotation_text};
use crate::ty::{type_display, type_text};
use itertools::Itertools;
use vstd::prelude::*;

verus! {

/// The decimal digit character for `d`.
pub open spec fn dec_digit(d: nat) -> char {
    if d == 0 {
        '0'
    } else if d == 1 {
        '1'
    } else if d == 2 {
        '2'
    } else if d == 3 {
        '3'
    } else if d == 4 {
        '4'
    } else if d == 5 {
        '5'
    } else if d == 6 {
        '6'
    } else if d == 7 {
        '7'
    } else if d == 8 {
        '8'
    } else {
        '9'
    }
}

/// The decimal text of `n`, most significant digit first, no leading zeros.
pub open spec fn dec_text(n: nat) -> Seq<char>
    decreases n,
{
    if n < 10 {
        seq![dec_digit(n)]
    } else {
        dec_text(n / 10) + seq![dec_digit(n % 10)]
    }
}

/// The single-character string for decimal digit `d`.
fn digit_str(d: usize) -> (r: &'static str)
    requires
        d < 10,
    ensures
        r@ == seq![dec_digit(d as nat)],
{
    proof {
        reveal_strlit("0");
        reveal_strlit("1");
        reveal_strlit("2");
        reveal_strlit("3");
        reveal_strlit("4");
        reveal_strlit("5");
        reveal_strlit("6");
        reveal_strlit("7");
        reveal_strlit("8");
        reveal_strlit("9");
    }
    let r = if d == 0 {
        "0"
    } else if d == 1 {
        "1"
    } else if d == 2 {
        "2"
    } else if d == 3 {
        "3"
    } else if d == 4 {
        "4"
    } else if d == 5 {
        "5"
    } else if d == 6 {
        "6"
    } else if d == 7 {
        "7"
    } else if d == 8 {
        "8"
    } else {
        "9"
    };
    proof {
        assert(r@ =~= seq![dec_digit(d as nat)]);
    }
    r
}

/// Renders `n` in decimal.
pub fn dec_string(n: usize) -> (r: String)
    ensures
        r@ == dec_text(n as nat),
    decreases n,
{
    if n < 10 {
        String::from_str(digit_str(n))
    } else {
        let mut r = dec_string(n / 10);
        r.append(digit_str(n % 10));
        r
    }
}

/// The parts joined by `sep`: nothing for no parts, otherwise the parts in
/// order with `sep` between each adjacent pair.
pub open spec fn join_text(parts: Seq<Seq<char>>, sep: Seq<char>) -> Seq<char>
    decreases parts.len(),
{
    if parts.len() == 0 {
        Seq::empty()
    } else if parts.len() == 1 {
        parts[0]
    } else {
        join_text(parts.drop_last(), sep) + sep + parts.last()
    }
}

/// Relies on itertools' `Itertools::join` over `String` items, whose display
/// text is the string itself: the items in order, separated by `sep`; an
/// empty iterator yields the empty string.
#[verifier::external_body]
fn join_strings(items: &Vec<String>, sep: &str) -> (r: String)
    ensures
        r@ == join_text(items@.map(|i: int, s: String| s@), sep@),
{
    items.iter().join(sep)
}

/// Joins the parts with `sep`, as the spec-level [`join_text`] does.
pub fn join_display(parts: &Vec<String>, sep: &str) -> (r: String)
    ensures
        r@ == join_text(parts@.map(|i: int, s: String| s@), sep@),
{
    let n = parts.len();
    let mut r = String::new();
    let mut i: usize = 0;
    while i < n
        invariant
            n == parts@.len(),
            i <= n,
            i == 0 ==> r@ == Seq::<char>::empty(),
            i >= 1 ==> r@ == join_text(
                parts@.map(|j: int, s: String| s@).take(i as int),
                sep@,
            ),
        decreases n - i,
    {
        let ghost mapped = parts@.map(|j: int, s: String| s@);
        if i > 0 {
            r.append(sep);
        }
        r.append(parts[i].as_str());
        proof {
            assert(mapped.take(i + 1).last() == mapped[i as int]);
            assert(mapped.take(i + 1).drop_last() =~= mapped.take(i as int));
            if i == 0 {
                assert(r@ =~= join_text(mapped.take(1), sep@));
            } else {
                assert(r@ =~= join_text(mapped.take(i + 1), sep@));
            }
        }
        i = i + 1;
    }
    proof {
        let mapped = parts@.map(|j: int, s: String| s@);
        assert(mapped.take(n as int) =~= mapped);
        if n == 0 {
            assert(r@ =~= join_text(mapped, sep@));
        }
    }
    r
}

/// The pooled text of symbol `s` in `t`'s pool.
pub open spec fn pool_text(t: FunctionTarget, s: crate::symbols::Symbol) -> Seq<char> {
    t.func_env.module_env.env.symbol_pool.texts()[s.0 as int]
}

/// The text the local at `idx` displays as: its source name if declared,
/// otherwise its generated temporary name.
pub open spec fn local_name_text(t: FunctionTarget, idx: usize) -> Seq<char> {
    if idx < t.func_env.local_names@.len() {
        pool_text(t, t.func_env.local_names@[idx as int])
    } else {
        "$t"@ + dec_text(idx as nat)
    }
}

/// Renders the name of the local at `idx`.
pub fn local_name_display(t: &FunctionTarget<'_>, idx: usize) -> (r: String)
    requires
        t.wf(),
    ensures
        r@ == local_name_text(*t, idx),
{
    if idx < t.func_env.local_names.len() {
        t.symbol_pool().string(t.func_env.local_names[idx]).clone()
    } else {
        proof {
            reveal_strlit("$t");
        }
        let mut r = String::from_str("$t");
        let digits = dec_string(idx);
        r.append(digits.as_str());
        r
    }
}

/// The angle-bracketed type-parameter list, or nothing if there are none.
pub open spec fn tparams_text(t: FunctionTarget) -> Seq<char> {
    let names = Seq::new(
        t.func_env.type_parameters@.len(),
        |i: int| pool_text(t, t.func_env.type_parameters@[i].0),
    );
    if names.len() == 0 {
        Seq::empty()
    } else {
        "<"@ + join_text(names, ", "@) + ">"@
    }
}

/// The parenthesized parameter list: `name: type`, comma-separated, with the
/// types as the current snapshot holds them.
pub open spec fn params_text(t: FunctionTarget) -> Seq<char> {
    let pool = t.func_env.module_env.env.symbol_pool.texts();
    let parts = Seq::new(
        t.func_env.parameter_types@.len(),
        |i: int| local_name_text(t, i as usize) + ": "@ + type_text(t.data.local_types@[i], pool),
    );
    "("@ + join_text(parts, ", "@) + ")"@
}

/// The return-type suffix: nothing for no returns, `: ty` for one, and a
/// parenthesized comma-separated list for more.
pub open spec fn returns_text(t: FunctionTarget) -> Seq<char> {
    let pool = t.func_env.module_env.env.symbol_pool.texts();
    let parts = Seq::new(
        t.data.return_types@.len(),
        |i: int| type_text(t.data.return_types@[i], pool),
    );
    if parts.len() == 0 {
        Seq::empty()
    } else if parts.len() == 1 {
        ": "@ + join_text(parts, ", "@)
    } else {
        ": ("@ + join_text(parts, ", "@) + ")"@
    }
}

/// The whole header line, opening brace included.
pub open spec fn header_text(t: FunctionTarget) -> Seq<char> {
    (if t.func_env.public {
        "pub "@
    } else {
        Seq::<char>::empty()
    }) + "fun "@ + pool_text(t, t.func_env.module_env.name) + "::"@ + pool_text(
        t,
        t.func_env.name,
    ) + tparams_text(t) + params_text(t) + returns_text(t) + " {\n"@
}

/// One `var name: type` line per pass-introduced temporary, from `i` up.
pub open spec fn var_lines_text(t: FunctionTarget, i: int) -> Seq<char>
    decreases t.data.local_types@.len() - i,
{
    let pool = t.func_env.module_env.env.symbol_pool.texts();
    if i < 0 || i >= t.data.local_types@.len() {
        Seq::empty()
    } else {
        "    var "@ + local_name_text(t, i as usize) + ": "@ + type_text(
            t.data.local_types@[i],
            pool,
        ) + "\n"@ + var_lines_text(t, i + 1)
    }
}

/// The instruction at `offset` as it renders: its operation's name, then the
/// named locals it mentions.
pub open spec fn bytecode_text(t: FunctionTarget, offset: int) -> Seq<char> {
    let bc = t.data.code@[offset];
    let args = Seq::new(bc.args@.len(), |i: int| local_name_text(t, bc.args@[i]));
    pool_text(t, bc.op) + if args.len() == 0 {
        Seq::<char>::empty()
    } else {
        " "@ + join_text(args, ", "@)
    }
}

/// The comment lines the formatters `fmts` contribute at `offset`, in
/// registration order; formatters with nothing to say contribute nothing.
pub open spec fn ann_lines(
    t: FunctionTarget,
    fmts: Seq<AnnotationFormatter>,
    offset: usize,
) -> Seq<Seq<char>>
    decreases fmts.len(),
{
    if fmts.len() == 0 {
        Seq::empty()
    } else {
        ann_lines(t, fmts.drop_last(), offset) + (match spec_annotation_text(
            t,
            fmts.last().kind,
            offset,
        ) {
            Some(txt) => seq!["    // "@ + txt],
            None => Seq::<Seq<char>>::empty(),
        })
    }
}

/// The annotation block above the instruction at `offset`: the contributed
/// comment lines joined by newlines, or nothing if no formatter speaks.
pub open spec fn ann_block_text(t: FunctionTarget, offset: usize) -> Seq<char> {
    let lines = ann_lines(t, t.formatters_seq(), offset);
    if lines.len() == 0 {
        Seq::empty()
    } else {
        join_text(lines, "\n"@) + "\n"@
    }
}

/// The indented line of the instruction at `offset`.
pub open spec fn instr_line_text(t: FunctionTarget, offset: usize) -> Seq<char> {
    "    "@ + bytecode_text(t, offset as int) + "\n"@
}

/// The rendered body from instruction `i` on: annotation block, then
/// instruction line, for each position in order.
pub open spec fn body_text(t: FunctionTarget, i: int) -> Seq<char>
    decreases t.data.code@.len() - i,
{
    if i < 0 || i >= t.data.code@.len() {
        Seq::empty()
    } else {
        ann_block_text(t, i as usize) + instr_line_text(t, i as usize) + body_text(t, i + 1)
    }
}

/// The whole dump: header, `var` lines, rendered instructions, closing brace.
pub open spec fn render_text(t: FunctionTarget) -> Seq<char> {
    header_text(t) + var_lines_text(t, t.func_env.parameter_types@.len() as int) + body_text(t, 0)
        + "}\n"@
}


/// Renders the type-parameter list of the header.
fn tparams_display(t: &FunctionTarget<'_>) -> (r: String)
    requires
        t.wf(),
    ensures
        r@ == tparams_text(*t),
{
    let ghost names = Seq::new(
        t.func_env.type_parameters@.len(),
        |i: int| pool_text(*t, t.func_env.type_parameters@[i].0),
    );
    let n = t.func_env.type_parameters.len();
    if n == 0 {
        let r = String::new();
        proof {
            assert(r@ =~= tparams_text(*t));
        }
        r
    } else {
        let mut parts: Vec<String> = Vec::new();
        let mut i: usize = 0;
        while i < n
            invariant
                t.wf(),
                n == t.func_env.type_parameters@.len(),
                i <= n,
                parts@.len() == i as int,
                forall|k: int|
                    0 <= k < i ==> parts@[k]@ == pool_text(
                        *t,
                        t.func_env.type_parameters@[k].0,
                    ),
            decreases n - i,
        {
            parts.push(t.symbol_pool().string(t.func_env.type_parameters[i].0).clone());
            i = i + 1;
        }
        proof {
            assert(parts@.map(|j: int, s: String| s@) =~= names);
        }
        let mut r = String::from_str("<");
        let joined = join_display(&parts, ", ");
        r.append(joined.as_str());
        r.append(">");
        proof {
            assert(r@ =~= tparams_text(*t));
        }
        r
    }
}

/// Renders the parenthesized parameter list.
fn params_display(t: &FunctionTarget<'_>) -> (r: String)
    requires
        t.wf(),
    ensures
        r@ == params_text(*t),
{
    let ghost pool = t.func_env.module_env.env.symbol_pool.texts();
    let ghost partspec = Seq::new(
        t.func_env.parameter_types@.len(),
        |i: int| local_name_text(*t, i as usize) + ": "@ + type_text(t.data.local_types@[i], pool),
    );
    let n = t.func_env.parameter_types.len();
    let mut parts: Vec<String> = Vec::new();
    let mut i: usize = 0;
    while i < n
        invariant
            t.wf(),
            n == t.func_env.parameter_types@.len(),
            partspec == Seq::new(
                t.func_env.parameter_types@.len(),
                |i: int| local_name_text(*t, i as usize) + ": "@ + type_text(
                    t.data.local_types@[i],
                    t.func_env.module_env.env.symbol_pool.texts(),
                ),
            ),
            i <= n,
            parts@.len() == i as int,
            forall|k: int| 0 <= k < i ==> parts@[k]@ == partspec[k],
        decreases n - i,
    {
        let mut s = local_name_display(t, i);
        s.append(": ");
        let td = type_display(&t.data.local_types[i], t.symbol_pool());
        s.append(td.as_str());
        parts.push(s);
        i = i + 1;
    }
    proof {
        assert(parts@.map(|j: int, s: String| s@) =~= partspec);
    }
    let mut r = String::from_str("(");
    let joined = join_display(&parts, ", ");
    r.append(joined.as_str());
    r.append(")");
    proof {
        assert(r@ =~= params_text(*t));
    }
    r
}

/// Renders the return-type suffix.
fn returns_display(t: &FunctionTarget<'_>) -> (r: String)
    requires
        t.wf(),
    ensures
        r@ == returns_text(*t),
{
    let ghost pool = t.func_env.module_env.env.symbol_pool.texts();
    let ghost partspec = Seq::new(
        t.data.return_types@.len(),
        |i: int| type_text(t.data.return_types@[i], pool),
    );
    let n = t.data.return_types.len();
    if n == 0 {
        let r = String::new();
        proof {
            assert(r@ =~= returns_text(*t));
        }
        return r;
    }
    let mut parts: Vec<String> = Vec::new();
    let mut i: usize = 0;
    while i < n
        invariant
            t.wf(),
            n == t.data.return_types@.len(),
            partspec == Seq::new(
                t.data.return_types@.len(),
                |i: int| type_text(
                    t.data.return_types@[i],
                    t.func_env.module_env.env.symbol_pool.texts(),
                ),
            ),
            i <= n,
            parts@.len() == i as int,
            forall|k: int| 0 <= k < i ==> parts@[k]@ == partspec[k],
        decreases n - i,
    {
        parts.push(type_display(&t.data.return_types[i], t.symbol_pool()));
        i = i + 1;
    }
    proof {
        assert(parts@.map(|j: int, s: String| s@) =~= partspec);
    }
    let joined = join_display(&parts, ", ");
    let mut r = if n > 1 {
        String::from_str(": (")
    } else {
        String::from_str(": ")
    };
    r.append(joined.as_str());
    if n > 1 {
        r.append(")");
    }
    proof {
        assert(r@ =~= returns_text(*t));
    }
    r
}

/// Renders the header line, opening brace included.
fn header_display(t: &FunctionTarget<'_>) -> (r: String)
    requires
        t.wf(),
    ensures
        r@ == header_text(*t),
{
    let mut r = if t.is_public() {
        String::from_str("pub ")
    } else {
        String::new()
    };
    r.append("fun ");
    r.append(t.symbol_pool().string(t.func_env.module_env.name).as_str());
    r.append("::");
    r.append(t.symbol_pool().string(t.func_env.name).as_str());
    let tp = tparams_display(t);
    r.append(tp.as_str());
    let ps = params_display(t);
    r.append(ps.as_str());
    let rt = returns_display(t);
    r.append(rt.as_str());
    r.append(" {\n");
    proof {
        assert(r@ =~= header_text(*t));
    }
    r
}

/// Renders the instruction at `offset`: operation name, then its named
/// operands.
fn bytecode_display(t: &FunctionTarget<'_>, offset: usize) -> (r: String)
    requires
        t.wf(),
        offset < t.data.code@.len(),
    ensures
        r@ == bytecode_text(*t, offset as int),
{
    let ghost argspec = Seq::new(
        t.data.code@[offset as int].args@.len(),
        |i: int| local_name_text(*t, t.data.code@[offset as int].args@[i]),
    );
    let mut r = t.symbol_pool().string(t.data.code[offset].op).clone();
    let na = t.data.code[offset].args.len();
    if na > 0 {
        let mut parts: Vec<String> = Vec::new();
        let mut i: usize = 0;
        while i < na
            invariant
                t.wf(),
                offset < t.data.code@.len(),
                na == t.data.code@[offset as int].args@.len(),
                i <= na,
                parts@.len() == i as int,
                forall|k: int|
                    0 <= k < i ==> parts@[k]@ == local_name_text(
                        *t,
                        t.data.code@[offset as int].args@[k],
                    ),
            decreases na - i,
        {
            parts.push(local_name_display(t, t.data.code[offset].args[i]));
            i = i + 1;
        }
        proof {
            assert(parts@.map(|j: int, s: String| s@) =~= argspec);
        }
        r.append(" ");
        let joined = join_display(&parts, ", ");
        r.append(joined.as_str());
        proof {
            assert(r@ =~= bytecode_text(*t, offset as int));
        }
    } else {
        proof {
            assert(r@ =~= bytecode_text(*t, offset as int));
        }
    }
    r
}

/// Renders the annotation block above the instruction at `offset`: one
/// comment line per formatter with something to say, in registration order.
fn ann_block_display(t: &FunctionTarget<'_>, offset: usize) -> (r: String)
    ensures
        r@ == ann_block_text(*t, offset),
{
    let fmts = t.formatters();
    let n = fmts.len();
    let mut lines: Vec<String> = Vec::new();
    let mut i: usize = 0;
    while i < n
        invariant
            n == t.formatters_seq().len(),
            fmts@ == t.formatters_seq(),
            i <= n,
            lines@.map(|j: int, s: String| s@) == ann_lines(
                *t,
                t.formatters_seq().take(i as int),
                offset,
            ),
        decreases n - i,
    {
        let f = fmts[i];
        let ghost pre = t.formatters_seq().take(i as int);
        let ghost post = t.formatters_seq().take(i + 1);
        match f.format(t, offset) {
            Some(s) => {
                let mut line = String::from_str("    // ");
                line.append(s.as_str());
                lines.push(line);
            },
            None => {},
        }
        proof {
            assert(post.drop_last() =~= pre);
            assert(post.last() == t.formatters_seq()[i as int]);
            assert(lines@.map(|j: int, s: String| s@) =~= ann_lines(*t, post, offset));
        }
        i = i + 1;
    }
    proof {
        assert(t.formatters_seq().take(n as int) =~= t.formatters_seq());
    }
    if lines.len() > 0 {
        let mut r = join_strings(&lines, "\n");
        r.append("\n");
        r
    } else {
        let r = String::new();
        proof {
            assert(r@ =~= ann_block_text(*t, offset));
        }
        r
    }
}

impl<'env> FunctionTarget<'env> {
    /// Renders this target as a deterministic textual dump: the header, one
    /// `var` line per temporary, and each instruction under the annotation
    /// lines its formatters contribute.  The text is a function of the
    /// snapshot and the registered formatters alone, so rendering the same
    /// snapshot twice with the same registration is byte-identical.
    pub fn render(&self) -> (r: String)
        requires
            self.wf(),
        ensures
            r@ == render_text(*self),
    {
        let mut out = header_display(self);
        let pc = self.get_parameter_count();
        let lc = self.get_local_count();
        let mut i: usize = pc;
        proof {
            assert(pc <= lc);
        }
        while i < lc
            invariant
                self.wf(),
                pc == self.func_env.parameter_types@.len(),
                lc == self.data.local_types@.len(),
                pc <= i <= lc,
                out@ + var_lines_text(*self, i as int) == header_text(*self) + var_lines_text(
                    *self,
                    pc as int,
                ),
            decreases lc - i,
        {
            let ghost out0 = out@;
            let mut line = String::from_str("    var ");
            let name = local_name_display(self, i);
            line.append(name.as_str());
            line.append(": ");
            let td = type_display(&self.data.local_types[i], self.symbol_pool());
            line.append(td.as_str());
            line.append("\n");
            out.append(line.as_str());
            proof {
                assert(out@ + var_lines_text(*self, i + 1) =~= out0 + var_lines_text(
                    *self,
                    i as int,
                ));
            }
            i = i + 1;
        }
        proof {
            assert(var_lines_text(*self, lc as int) =~= Seq::<char>::empty());
            assert(out@ + var_lines_text(*self, lc as int) =~= out@);
        }
        let nc = self.get_bytecode().len();
        let mut off: usize = 0;
        proof {
            assert(out@ + body_text(*self, 0) =~= header_text(*self) + var_lines_text(
                *self,
                pc as int,
            ) + body_text(*self, 0));
        }
        while off < nc
            invariant
                self.wf(),
                pc == self.func_env.parameter_types@.len(),
                nc == self.data.code@.len(),
                off <= nc,
                out@ + body_text(*self, off as int) == header_text(*self) + var_lines_text(
                    *self,
                    pc as int,
                ) + body_text(*self, 0),
            decreases nc - off,
        {
            let ghost out0 = out@;
            let ab = ann_block_display(self, off);
            out.append(ab.as_str());
            let bc = bytecode_display(self, off);
            let mut line = String::from_str("    ");
            line.append(bc.as_str());
            line.append("\n");
            out.append(line.as_str());
            proof {
                assert(out@ + body_text(*self, off + 1) =~= out0 + body_text(*self, off as int));
            }
            off = off + 1;
        }
        proof {
            assert(body_text(*self, nc as int) =~= Seq::<char>::empty());
        }
        out.append("}\n");
        proof {
            assert(out@ =~= render_text(*self));
        }
        out
    }
}

/// Two targets render from the same inputs: one static view, one snapshot,
/// one formatter registration.
pub open spec fn same_rendering_inputs(t1: FunctionTarget, t2: FunctionTarget) -> bool {
    &&& t1.func_env == t2.func_env
    &&& t1.data == t2.data
    &&& t1.formatters_seq() == t2.formatters_seq()
}

/// The `var` lines depend only on the rendering inputs.
proof fn lemma_var_lines_same(t1: FunctionTarget, t2: FunctionTarget, i: int)
    requires
        same_rendering_inputs(t1, t2),
    ensures
        var_lines_text(t1, i) == var_lines_text(t2, i),
    decreases t1.data.local_types@.len() - i,
{
    if 0 <= i < t1.data.local_types@.len() {
        lemma_var_lines_same(t1, t2, i + 1);
    }
}

/// The annotation lines depend only on the rendering inputs.
proof fn lemma_ann_lines_same(
    t1: FunctionTarget,
    t2: FunctionTarget,
    fmts: Seq<AnnotationFormatter>,
    offset: usize,
)
    requires
        same_rendering_inputs(t1, t2),
    ensures
        ann_lines(t1, fmts, offset) == ann_lines(t2, fmts, offset),
    decreases fmts.len(),
{
    if fmts.len() > 0 {
        lemma_ann_lines_same(t1, t2, fmts.drop_last(), offset);
    }
}

/// The rendered body depends only on the rendering inputs.
proof fn lemma_body_same(t1: FunctionTarget, t2: FunctionTarget, i: int)
    requires
        same_rendering_inputs(t1, t2),
    ensures
        body_text(t1, i) == body_text(t2, i),
    decreases t1.data.code@.len() - i,
{
    if 0 <= i < t1.data.code@.len() {
        let off = i as usize;
        lemma_ann_lines_same(t1, t2, t1.formatters_seq(), off);
        assert(Seq::new(
            t1.data.code@[off as int].args@.len(),
            |k: int| local_name_text(t1, t1.data.code@[off as int].args@[k]),
        ) =~= Seq::new(
            t2.data.code@[off as int].args@.len(),
            |k: int| local_name_text(t2, t2.data.code@[off as int].args@[k]),
        ));
        assert(bytecode_text(t1, off as int) == bytecode_text(t2, off as int));
        assert(instr_line_text(t1, off) == instr_line_text(t2, off));
        assert(ann_block_text(t1, off) == ann_block_text(t2, off));
        lemma_body_same(t1, t2, i + 1);
        assert(body_text(t1, i) == ann_block_text(t1, off) + instr_line_text(t1, off)
            + body_text(t1, i + 1));
        assert(body_text(t2, i) == ann_block_text(t2, off) + instr_line_text(t2, off)
            + body_text(t2, i + 1));
    }
}

/// The determinism law of the renderer: the dump is a function of the static
/// view, the snapshot and the formatter registration alone, so rendering the
/// same snapshot twice with the same formatter set yields byte-identical
/// text.
pub proof fn lemma_render_deterministic(t1: FunctionTarget, t2: FunctionTarget)
    requires
        same_rendering_inputs(t1, t2),
    ensures
        render_text(t1) == render_text(t2),
{
    assert(Seq::new(
        t1.func_env.type_parameters@.len(),
        |i: int| pool_text(t1, t1.func_env.type_parameters@[i].0),
    ) =~= Seq::new(
        t2.func_env.type_parameters@.len(),
        |i: int| pool_text(t2, t2.func_env.type_parameters@[i].0),
    ));
    let pool1 = t1.func_env.module_env.env.symbol_pool.texts();
    let pool2 = t2.func_env.module_env.env.symbol_pool.texts();
    assert(Seq::new(
        t1.func_env.parameter_types@.len(),
        |i: int| local_name_text(t1, i as usize) + ": "@ + type_text(
            t1.data.local_types@[i],
            pool1,
        ),
    ) =~= Seq::new(
        t2.func_env.parameter_types@.len(),
        |i: int| local_name_text(t2, i as usize) + ": "@ + type_text(
            t2.data.local_types@[i],
            pool2,
        ),
    ));
    assert(Seq::new(
        t1.data.return_types@.len(),
        |i: int| type_text(t1.data.return_types@[i], pool1),
    ) =~= Seq::new(
        t2.data.return_types@.len(),
        |i: int| type_text(t2.data.return_types@[i], pool2),
    ));
    assert(header_text(t1) == header_text(t2));
    lemma_var_lines_same(t1, t2, t1.func_env.parameter_types@.len() as int);
    lemma_body_same(t1, t2, 0);
}

} // verus!
