use crate::formatting::{ColoredOutput, Segment, Style};
use vstd::prelude::*;

verus! {

/// The pieces joined into one line, with a single space between two pieces.
pub open spec fn join_words(s: Seq<Seq<char>>) -> Seq<char>
    decreases s.len(),
{
    if s.len() == 0 {
        Seq::empty()
    } else if s.len() == 1 {
        s[0]
    } else {
        join_words(s.drop_last()) + seq![' '] + s.last()
    }
}

/// The views of a sequence of strings.
pub open spec fn string_views(v: Seq<String>) -> Seq<Seq<char>> {
    v.map_values(|s: String| s@)
}

/// Joins the strings into one line, with a single space between two of them.
pub fn join_with_spaces(parts: &Vec<String>) -> (r: String)
    ensures
        r@ == join_words(string_views(parts@)),
{
    let ghost all = string_views(parts@);
    let mut r = String::new();
    let mut i: usize = 0;
    while i < parts.len()
        invariant
            i <= parts@.len(),
            all == string_views(parts@),
            r@ == join_words(all.take(i as int)),
        decreases parts@.len() - i,
    {
        proof {
            reveal_strlit(" ");
        }
        assert(all.take(i + 1).drop_last() =~= all.take(i as int));
        assert(all[i as int] == parts@[i as int]@);
        assert(all.take(i + 1).last() == all[i as int]);
        if i > 0 {
            r.append(" ");
        } else {
            assert(r@ =~= Seq::<char>::empty());
        }
        let ghost mid = r@;
        r.append(parts[i].as_str());
        assert(r@ == mid + all[i as int]);
        if i > 0 {
            assert(join_words(all.take(i + 1)) == join_words(all.take(i as int)) + seq![' '] + all[i as int]);
        } else {
            assert(all.take(i + 1).len() == 1);
            assert(join_words(all.take(i + 1)) == all.take(i + 1)[0]);
        }
        assert(r@ =~= join_words(all.take(i + 1)));
        i = i + 1;
    }
    assert(all.take(parts@.len() as int) =~= all);
    r
}

/// A message under construction: styled pieces of text that make one line.
pub struct MessageBuilder {
    parts: Vec<Segment>,
}

impl MessageBuilder {
    /// The texts of the pieces, in order.
    pub closed spec fn texts(&self) -> Seq<Seq<char>> {
        self.parts@.map_values(|p: Segment| p.text@)
    }

    /// The styles of the pieces, in order.
    pub closed spec fn styles(&self) -> Seq<Style> {
        self.parts@.map_values(|p: Segment| p.style)
    }

    /// The line the message shows, its styles aside.
    pub open spec fn line_spec(&self) -> Seq<char> {
        join_words(self.texts())
    }

    /// A message with no pieces yet: it shows an empty line.
    pub fn new() -> (r: Self)
        ensures
            r.texts() == Seq::<Seq<char>>::empty(),
            r.styles() == Seq::<Style>::empty(),
    {
        let r = MessageBuilder { parts: Vec::new() };
        assert(r.texts() =~= Seq::<Seq<char>>::empty());
        assert(r.styles() =~= Seq::<Style>::empty());
        r
    }

    /// The message with `text` in `style` added as its last piece.
    pub fn add<T: ColoredOutput>(self, text: T, style: Style) -> (r: Self)
        ensures
            r.texts() == self.texts().push(text.text_of()),
            r.styles() == self.styles().push(style),
    {
        let mut parts = self.parts;
        let seg = text.to_colored(style);
        parts.push(seg);
        let r = MessageBuilder { parts };
        assert(r.texts() =~= self.texts().push(text.text_of()));
        assert(r.styles() =~= self.styles().push(style));
        r
    }

    /// The number of pieces.
    pub fn len(&self) -> (r: usize)
        ensures
            r == self.texts().len(),
    {
        self.parts.len()
    }

    /// The text of piece `i`.
    pub fn text_at(&self, i: usize) -> (r: &str)
        requires
            i < self.texts().len(),
        ensures
            r@ == self.texts()[i as int],
    {
        self.parts[i].text.as_str()
    }

    /// The style of piece `i`.
    pub fn style_at(&self, i: usize) -> (r: Style)
        requires
            i < self.texts().len(),
        ensures
            r == self.styles()[i as int],
    {
        self.parts[i].style
    }

    /// The line the message shows, its styles aside: the texts of the pieces
    /// joined by single spaces.
    pub fn line(&self) -> (r: String)
        ensures
            r@ == self.line_spec(),
    {
        let ghost all = self.texts();
        let mut r = String::new();
        let mut i: usize = 0;
        while i < self.parts.len()
            invariant
                i <= self.parts@.len(),
                all == self.texts(),
                all.len() == self.parts@.len(),
                r@ == join_words(all.take(i as int)),
            decreases self.parts@.len() - i,
        {
            proof {
                reveal_strlit(" ");
            }
            assert(all.take(i + 1).drop_last() =~= all.take(i as int));
            assert(all[i as int] == self.parts@[i as int].text@);
            assert(all.take(i + 1).last() == all[i as int]);
            if i > 0 {
                r.append(" ");
            } else {
                assert(r@ =~= Seq::<char>::empty());
            }
            let ghost mid = r@;
            r.append(self.parts[i].text.as_str());
            assert(r@ == mid + all[i as int]);
            if i > 0 {
                assert(join_words(all.take(i + 1)) == join_words(all.take(i as int)) + seq![' '] + all[i as int]);
            } else {
                assert(all.take(i + 1).len() == 1);
                assert(join_words(all.take(i + 1)) == all.take(i + 1)[0]);
            }
            assert(r@ =~= join_words(all.take(i + 1)));
            i = i + 1;
        }
        assert(all.take(self.parts@.len() as int) =~= all);
        r
    }
}

} // verus!
