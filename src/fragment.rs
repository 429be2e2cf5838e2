use vstd::prelude::*;

verus! {

/// One piece of a query template.
#[derive(Debug, PartialEq, Eq)]
pub enum Fragment {
    /// Fixed SQL text.
    StringChunk { chunk: String },
    /// A placeholder for one value.
    Parameter,
    /// A placeholder for a group of `arity` values, written
    /// `item_prefix value item_separator value ... item_suffix`.
    ParameterTuple {
        item_prefix: String,
        item_separator: String,
        item_suffix: String,
        arity: usize,
    },
    /// A placeholder for any number of equally long groups of values, each written
    /// as a tuple and joined by `group_separator`.
    ParameterTupleList {
        item_prefix: String,
        item_separator: String,
        item_suffix: String,
        group_separator: String,
    },
}

/// What is bound to one placeholder fragment at execution time, already written
/// as text by the binding layer.
#[derive(Debug, PartialEq, Eq)]
pub enum BoundValue {
    /// The value of a `Parameter`.
    Single(String),
    /// The values of a `ParameterTuple`.
    Tuple(Vec<String>),
    /// The groups of values of a `ParameterTupleList`.
    TupleList(Vec<Vec<String>>),
}

/// Why a template and its bound values could not be paired.
#[derive(Debug, PartialEq, Eq, Clone, Copy)]
pub enum PairingError {
    /// The number of bound values differs from the number of placeholders, or a
    /// scalar or tuple placeholder got a value of the wrong count or shape.
    CountMismatch,
    /// A tuple-list placeholder got something other than groups of equal length.
    GroupingMismatch,
}

/// The items joined by a separator, with none before the first or after the last.
pub open spec fn join(items: Seq<Seq<char>>, sep: Seq<char>) -> Seq<char>
    decreases items.len(),
{
    if items.len() == 0 {
        Seq::empty()
    } else if items.len() == 1 {
        items[0]
    } else {
        join(items.drop_last(), sep) + sep + items.last()
    }
}

/// The text of each value.
pub open spec fn texts(v: Seq<String>) -> Seq<Seq<char>> {
    v.map_values(|s: String| s@)
}

/// One tuple of values with its delimiters.
pub open spec fn tuple_text(
    prefix: Seq<char>,
    sep: Seq<char>,
    suffix: Seq<char>,
    items: Seq<String>,
) -> Seq<char> {
    prefix + join(texts(items), sep) + suffix
}

/// Whether all groups have the length of the first.
pub open spec fn uniform(groups: Seq<Vec<String>>) -> bool {
    forall|i: int| 0 <= i < groups.len() ==> #[trigger] groups[i]@.len() == groups[0]@.len()
}

/// A list of groups, each written as a tuple, joined by the group separator.
pub open spec fn tuple_list_text(
    prefix: Seq<char>,
    sep: Seq<char>,
    suffix: Seq<char>,
    group_sep: Seq<char>,
    groups: Seq<Vec<String>>,
) -> Seq<char> {
    join(groups.map_values(|g: Vec<String>| tuple_text(prefix, sep, suffix, g@)), group_sep)
}

/// The text a placeholder fragment gives for its bound value.
pub open spec fn placeholder_text(f: Fragment, v: BoundValue) -> Result<Seq<char>, PairingError> {
    match f {
        Fragment::StringChunk { chunk } => Ok(chunk@),
        Fragment::Parameter => match v {
            BoundValue::Single(s) => Ok(s@),
            _ => Err(PairingError::CountMismatch),
        },
        Fragment::ParameterTuple { item_prefix, item_separator, item_suffix, arity } => match v {
            BoundValue::Tuple(items) => if items@.len() == arity {
                Ok(tuple_text(item_prefix@, item_separator@, item_suffix@, items@))
            } else {
                Err(PairingError::CountMismatch)
            },
            _ => Err(PairingError::CountMismatch),
        },
        Fragment::ParameterTupleList { item_prefix, item_separator, item_suffix, group_separator } =>
            match v {
            BoundValue::TupleList(groups) => if uniform(groups@) {
                Ok(
                    tuple_list_text(
                        item_prefix@,
                        item_separator@,
                        item_suffix@,
                        group_separator@,
                        groups@,
                    ),
                )
            } else {
                Err(PairingError::GroupingMismatch)
            },
            _ => Err(PairingError::GroupingMismatch),
        },
    }
}

/// `text` ahead of a successful result; an error stays as it is.
pub open spec fn prepend(
    text: Seq<char>,
    r: Result<Seq<char>, PairingError>,
) -> Result<Seq<char>, PairingError> {
    match r {
        Ok(rest) => Ok(text + rest),
        Err(e) => Err(e),
    }
}

/// Pairs the fragments from index `i` on with the bound values from index `j` on,
/// left to right: a chunk is written as it stands, each placeholder takes the next
/// bound value.
pub open spec fn render_from(
    frags: Seq<Fragment>,
    vals: Seq<BoundValue>,
    i: int,
    j: int,
) -> Result<Seq<char>, PairingError>
    decreases frags.len() - i,
{
    if i >= frags.len() {
        if j >= vals.len() {
            Ok(Seq::empty())
        } else {
            Err(PairingError::CountMismatch)
        }
    } else if frags[i] is StringChunk {
        prepend(frags[i]->chunk@, render_from(frags, vals, i + 1, j))
    } else if j >= vals.len() {
        Err(PairingError::CountMismatch)
    } else {
        match placeholder_text(frags[i], vals[j]) {
            Ok(t) => prepend(t, render_from(frags, vals, i + 1, j + 1)),
            Err(e) => Err(e),
        }
    }
}

/// The text of a template with its bound values, or why they do not pair.
pub open spec fn render(frags: Seq<Fragment>, vals: Seq<BoundValue>) -> Result<
    Seq<char>,
    PairingError,
> {
    render_from(frags, vals, 0, 0)
}

/// Appends the items joined by `sep` to `out`.
fn push_joined(out: &mut String, items: &Vec<String>, sep: &str)
    ensures
        final(out)@ == old(out)@ + join(texts(items@), sep@),
{
    let ghost start = out@;
    let mut k: usize = 0;
    while k < items.len()
        invariant
            k <= items@.len(),
            out@ == start + join(texts(items@).take(k as int), sep@),
        decreases items@.len() - k,
    {
        if k > 0 {
            out.append(sep);
        }
        out.append(items[k].as_str());
        proof {
            let t = texts(items@);
            assert(t.take(k + 1).drop_last() =~= t.take(k as int));
            if k == 0 {
                assert(join(t.take(1), sep@) == t[0]);
            }
        }
        k = k + 1;
    }
    assert(texts(items@).take(items@.len() as int) =~= texts(items@));
}

/// Appends one tuple of values with its delimiters to `out`.
fn push_tuple(out: &mut String, prefix: &str, sep: &str, suffix: &str, items: &Vec<String>)
    ensures
        final(out)@ == old(out)@ + tuple_text(prefix@, sep@, suffix@, items@),
{
    let ghost start = out@;
    out.append(prefix);
    push_joined(out, items, sep);
    out.append(suffix);
    assert(out@ =~= start + tuple_text(prefix@, sep@, suffix@, items@));
}

/// Appends a list of groups, each as a tuple, joined by `group_sep`, to `out`.
fn push_tuple_list(
    out: &mut String,
    prefix: &str,
    sep: &str,
    suffix: &str,
    group_sep: &str,
    groups: &Vec<Vec<String>>,
)
    ensures
        final(out)@ == old(out)@ + tuple_list_text(prefix@, sep@, suffix@, group_sep@, groups@),
{
    let ghost start = out@;
    let ghost t = groups@.map_values(|g: Vec<String>| tuple_text(prefix@, sep@, suffix@, g@));
    let mut k: usize = 0;
    while k < groups.len()
        invariant
            k <= groups@.len(),
            t == groups@.map_values(|g: Vec<String>| tuple_text(prefix@, sep@, suffix@, g@)),
            out@ == start + join(t.take(k as int), group_sep@),
        decreases groups@.len() - k,
    {
        if k > 0 {
            out.append(group_sep);
        }
        push_tuple(out, prefix, sep, suffix, &groups[k]);
        proof {
            assert(t.take(k + 1).drop_last() =~= t.take(k as int));
            if k == 0 {
                assert(join(t.take(1), group_sep@) == t[0]);
            }
        }
        k = k + 1;
    }
    assert(t.take(groups@.len() as int) =~= t);
}

/// Whether all groups have the length of the first.
fn groups_uniform(groups: &Vec<Vec<String>>) -> (r: bool)
    ensures
        r == uniform(groups@),
{
    if groups.len() == 0 {
        return true;
    }
    let n = groups[0].len();
    let mut k: usize = 1;
    while k < groups.len()
        invariant
            1 <= k <= groups@.len(),
            n == groups@[0]@.len(),
            forall|i: int| 0 <= i < k ==> #[trigger] groups@[i]@.len() == n,
        decreases groups@.len() - k,
    {
        if groups[k].len() != n {
            return false;
        }
        k = k + 1;
    }
    true
}

/// Writes the text of a template with its bound values: each chunk as it stands,
/// each placeholder with the next bound value, left to right. Fails where the
/// values do not match the placeholders in number, count or grouping.
pub fn render_template(frags: &Vec<Fragment>, vals: &Vec<BoundValue>) -> (r: Result<
    String,
    PairingError,
>)
    ensures
        match r {
            Ok(s) => render(frags@, vals@) == Ok::<Seq<char>, PairingError>(s@),
            Err(e) => render(frags@, vals@) == Err::<Seq<char>, PairingError>(e),
        },
{
    let mut out = String::new();
    let mut i: usize = 0;
    let mut j: usize = 0;
    while i < frags.len()
        invariant
            i <= frags@.len(),
            j <= vals@.len(),
            render(frags@, vals@) == prepend(out@, render_from(frags@, vals@, i as int, j as int)),
        decreases frags@.len() - i,
    {
        let ghost before = out@;
        match &frags[i] {
            Fragment::StringChunk { chunk } => {
                out.append(chunk.as_str());
                proof {
                    assert(out@ == before + chunk@);
                    lemma_prepend_twice(before, chunk@, render_from(frags@, vals@, i + 1, j as int));
                }
                i = i + 1;
                continue;
            },
            _ => {},
        }
        if j >= vals.len() {
            return Err(PairingError::CountMismatch);
        }
        match (&frags[i], &vals[j]) {
            (Fragment::Parameter, BoundValue::Single(s)) => {
                out.append(s.as_str());
            },
            (
                Fragment::ParameterTuple { item_prefix, item_separator, item_suffix, arity },
                BoundValue::Tuple(items),
            ) => {
                if items.len() != *arity {
                    return Err(PairingError::CountMismatch);
                }
                push_tuple(
                    &mut out,
                    item_prefix.as_str(),
                    item_separator.as_str(),
                    item_suffix.as_str(),
                    items,
                );
            },
            (
                Fragment::ParameterTupleList {
                    item_prefix,
                    item_separator,
                    item_suffix,
                    group_separator,
                },
                BoundValue::TupleList(groups),
            ) => {
                if !groups_uniform(groups) {
                    return Err(PairingError::GroupingMismatch);
                }
                push_tuple_list(
                    &mut out,
                    item_prefix.as_str(),
                    item_separator.as_str(),
                    item_suffix.as_str(),
                    group_separator.as_str(),
                    groups,
                );
            },
            (Fragment::ParameterTupleList { .. }, _) => {
                return Err(PairingError::GroupingMismatch);
            },
            _ => {
                return Err(PairingError::CountMismatch);
            },
        }
        proof {
            let t = placeholder_text(frags@[i as int], vals@[j as int]);
            assert(t is Ok);
            assert(out@ == before + t->Ok_0);
            lemma_prepend_twice(
                before,
                t->Ok_0,
                render_from(frags@, vals@, i + 1, j + 1),
            );
        }
        i = i + 1;
        j = j + 1;
    }
    if j < vals.len() {
        return Err(PairingError::CountMismatch);
    }
    assert(render_from(frags@, vals@, i as int, j as int) == Ok::<Seq<char>, PairingError>(
        Seq::empty(),
    ));
    assert(out@ + Seq::<char>::empty() =~= out@);
    Ok(out)
}

/// Prepending twice is prepending the concatenation.
proof fn lemma_prepend_twice(a: Seq<char>, b: Seq<char>, r: Result<Seq<char>, PairingError>)
    ensures
        prepend(a, prepend(b, r)) == prepend(a + b, r),
{
    if let Ok(rest) = r {
        assert(a + (b + rest) =~= (a + b) + rest);
    }
}

} // verus!

verus! {

/// An ordered sequence of fragments, built left to right by a renderer.
#[derive(Debug, PartialEq, Eq)]
pub struct Template {
    fragments: Vec<Fragment>,
}

impl View for Template {
    type V = Seq<Fragment>;

    closed spec fn view(&self) -> Seq<Fragment> {
        self.fragments@
    }
}

/// The number of placeholder fragments, each of which takes one bound value.
pub open spec fn placeholders(frags: Seq<Fragment>) -> nat
    decreases frags.len(),
{
    if frags.len() == 0 {
        0
    } else {
        placeholders(frags.drop_last()) + if frags.last() is StringChunk {
            0nat
        } else {
            1nat
        }
    }
}

impl Template {
    /// An empty template.
    pub fn new() -> (r: Template)
        ensures
            r@ == Seq::<Fragment>::empty(),
    {
        Template { fragments: Vec::new() }
    }

    /// Appends fixed SQL text. The text is known when the program is built, so no
    /// value that reaches the program at run time can become a chunk through here.
    pub fn push_chunk(&mut self, chunk: &'static str)
        ensures
            final(self)@.len() == old(self)@.len() + 1,
            final(self)@.drop_last() == old(self)@,
            final(self)@.last() matches Fragment::StringChunk { chunk: c } && c@ == chunk@,
    {
        self.fragments.push(Fragment::StringChunk { chunk: String::from_str(chunk) });
        assert(self@.drop_last() =~= old(self)@);
    }

    /// Appends a placeholder for one value.
    pub fn push_parameter(&mut self)
        ensures
            final(self)@ == old(self)@.push(Fragment::Parameter),
    {
        self.fragments.push(Fragment::Parameter);
    }

    /// Appends a placeholder for a tuple of `arity` values.
    pub fn push_parameter_tuple(
        &mut self,
        item_prefix: &str,
        item_separator: &str,
        item_suffix: &str,
        arity: usize,
    )
        ensures
            final(self)@.len() == old(self)@.len() + 1,
            final(self)@.drop_last() == old(self)@,
            final(self)@.last() matches Fragment::ParameterTuple { item_prefix: p, item_separator: s, item_suffix: x, arity: n }
                && p@ == item_prefix@ && s@ == item_separator@ && x@ == item_suffix@ && n == arity,
    {
        self.fragments.push(
            Fragment::ParameterTuple {
                item_prefix: String::from_str(item_prefix),
                item_separator: String::from_str(item_separator),
                item_suffix: String::from_str(item_suffix),
                arity,
            },
        );
        assert(self@.drop_last() =~= old(self)@);
    }

    /// Appends a placeholder for a list of tuples whose number is known only when
    /// values are bound.
    pub fn push_parameter_tuple_list(
        &mut self,
        item_prefix: &str,
        item_separator: &str,
        item_suffix: &str,
        group_separator: &str,
    )
        ensures
            final(self)@.len() == old(self)@.len() + 1,
            final(self)@.drop_last() == old(self)@,
            final(self)@.last() matches Fragment::ParameterTupleList { item_prefix: p, item_separator: s, item_suffix: x, group_separator: g }
                && p@ == item_prefix@ && s@ == item_separator@ && x@ == item_suffix@ && g@ == group_separator@,
    {
        self.fragments.push(
            Fragment::ParameterTupleList {
                item_prefix: String::from_str(item_prefix),
                item_separator: String::from_str(item_separator),
                item_suffix: String::from_str(item_suffix),
                group_separator: String::from_str(group_separator),
            },
        );
        assert(self@.drop_last() =~= old(self)@);
    }

    /// The number of bound values the template takes: one per placeholder.
    pub fn placeholder_count(&self) -> (r: usize)
        ensures
            r == placeholders(self@),
    {
        let mut n: usize = 0;
        let mut i: usize = 0;
        while i < self.fragments.len()
            invariant
                i <= self@.len(),
                n == placeholders(self@.take(i as int)),
                n <= i,
            decreases self@.len() - i,
        {
            assert(self@.take(i + 1).drop_last() =~= self@.take(i as int));
            match &self.fragments[i] {
                Fragment::StringChunk { .. } => {},
                _ => {
                    n = n + 1;
                },
            }
            i = i + 1;
        }
        assert(self@.take(i as int) =~= self@);
        n
    }

    /// The fragments, in order.
    pub fn fragments(&self) -> (r: &Vec<Fragment>)
        ensures
            r@ == self@,
    {
        &self.fragments
    }

    /// Gives up the template for its fragments.
    pub fn into_fragments(self) -> (r: Vec<Fragment>)
        ensures
            r@ == self@,
    {
        self.fragments
    }

    /// Writes the template's text with its bound values.
    pub fn render(&self, vals: &Vec<BoundValue>) -> (r: Result<String, PairingError>)
        ensures
            match r {
                Ok(s) => render(self@, vals@) == Ok::<Seq<char>, PairingError>(s@),
                Err(e) => render(self@, vals@) == Err::<Seq<char>, PairingError>(e),
            },
    {
        render_template(&self.fragments, vals)
    }
}

} // verus!

verus! {

proof fn lemma_render_from_counts(frags: Seq<Fragment>, vals: Seq<BoundValue>, i: int, j: int)
    requires
        0 <= i <= frags.len(),
        0 <= j <= vals.len(),
        render_from(frags, vals, i, j) is Ok,
    ensures
        vals.len() - j == placeholders(frags) - placeholders(frags.take(i)),
    decreases frags.len() - i,
{
    if i == frags.len() {
        assert(frags.take(i) =~= frags);
    } else {
        assert(frags.take(i + 1).drop_last() =~= frags.take(i));
        if frags[i] is StringChunk {
            lemma_render_from_counts(frags, vals, i + 1, j);
        } else {
            lemma_render_from_counts(frags, vals, i + 1, j + 1);
        }
    }
}

/// Pairing succeeds only where every placeholder got a value and every value was
/// taken: the number of bound values is the number of placeholders.
pub proof fn lemma_pairing_takes_every_value(frags: Seq<Fragment>, vals: Seq<BoundValue>)
    requires
        render(frags, vals) is Ok,
    ensures
        vals.len() == placeholders(frags),
{
    lemma_render_from_counts(frags, vals, 0, 0);
    assert(frags.take(0) =~= Seq::<Fragment>::empty());
}

proof fn lemma_render_from_shift(
    head: Fragment,
    rest: Seq<Fragment>,
    vals: Seq<BoundValue>,
    i: int,
    j: int,
)
    requires
        0 <= i <= rest.len(),
        0 <= j,
    ensures
        render_from(seq![head] + rest, vals, i + 1, j) == render_from(rest, vals, i, j),
    decreases rest.len() - i,
{
    let all = seq![head] + rest;
    if i < rest.len() {
        assert(all[i + 1] == rest[i]);
        lemma_render_from_shift(head, rest, vals, i + 1, j);
        lemma_render_from_shift(head, rest, vals, i + 1, j + 1);
    }
}

/// A chunk's text is written as it stands, ahead of the rest of the template, and
/// takes no bound value.
pub proof fn lemma_chunk_written_verbatim(chunk: String, rest: Seq<Fragment>, vals: Seq<BoundValue>)
    ensures
        render(seq![Fragment::StringChunk { chunk }] + rest, vals) == prepend(
            chunk@,
            render(rest, vals),
        ),
{
    let head = Fragment::StringChunk { chunk };
    assert((seq![head] + rest)[0] == head);
    lemma_render_from_shift(head, rest, vals, 0, 0);
}

/// A tuple placeholder takes exactly its declared number of values: a tuple of
/// any other length fails with a count mismatch, never truncated or padded.
pub proof fn lemma_tuple_arity_enforced(
    item_prefix: String,
    item_separator: String,
    item_suffix: String,
    arity: usize,
    items: Vec<String>,
)
    requires
        items@.len() != arity,
    ensures
        render(
            seq![Fragment::ParameterTuple { item_prefix, item_separator, item_suffix, arity }],
            seq![BoundValue::Tuple(items)],
        ) == Err::<Seq<char>, PairingError>(PairingError::CountMismatch),
{
}

/// A tuple placeholder given its declared number of values writes them between
/// its delimiters.
pub proof fn lemma_tuple_arity_met(
    item_prefix: String,
    item_separator: String,
    item_suffix: String,
    arity: usize,
    items: Vec<String>,
)
    requires
        items@.len() == arity,
    ensures
        render(
            seq![Fragment::ParameterTuple { item_prefix, item_separator, item_suffix, arity }],
            seq![BoundValue::Tuple(items)],
        ) == Ok::<Seq<char>, PairingError>(
            tuple_text(item_prefix@, item_separator@, item_suffix@, items@),
        ),
{
    let t = tuple_text(item_prefix@, item_separator@, item_suffix@, items@);
    let frags = seq![Fragment::ParameterTuple { item_prefix, item_separator, item_suffix, arity }];
    let vals = seq![BoundValue::Tuple(items)];
    assert(render_from(frags, vals, 1, 1) == Ok::<Seq<char>, PairingError>(Seq::empty()));
    assert(placeholder_text(frags[0], vals[0]) == Ok::<Seq<char>, PairingError>(t));
    assert(t + Seq::<char>::empty() =~= t);
}

} // verus!
