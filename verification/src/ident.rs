//! The identity assigner.
//!
//! An entity is addressed either by a *named* reference — the canonical URL
//! of a real resource — or by an *anonymous* reference for a nested,
//! non-addressable sub-record.  An anonymous identity is the path from its
//! root entity down to the occurrence: a resource word with the parent's
//! numeric id, then one field word with an occurrence index per nesting
//! step.  It is a pure function of that path — no counters, no shared
//! state — so re-running an extraction assigns the same identity to the
//! same logical sub-record, and distinct paths are proved to render to
//! distinct labels.

use vstd::prelude::*;
use crate::chars::{all_alpha, dec, is_alpha, is_digit, lemma_class_split, lemma_concat_assoc,
    lemma_dec_digits, lemma_dec_injective};
use crate::text::{push_char, push_u64};

verus! {

/// One step of an anonymous identity path: a word naming the resource kind
/// or nested field, and a number (the parent's id, or the occurrence index
/// of the field).
pub struct AnonSeg {
    pub word: String,
    pub num: u64,
}

/// The mathematical value of one path step.
#[verifier::ext_equal]
pub struct AnonSegV {
    pub word: Seq<char>,
    pub num: nat,
}

impl DeepView for AnonSeg {
    type V = AnonSegV;

    open spec fn deep_view(&self) -> AnonSegV {
        AnonSegV { word: self.word@, num: self.num as nat }
    }
}

/// A word usable in an anonymous identity: nonempty and alphabetic, so
/// that words, numbers and the separator never blur into each other.
pub open spec fn wf_word(w: Seq<char>) -> bool {
    w.len() > 0 && all_alpha(w)
}

/// A well-formed identity path: at least the root step, every word
/// well-formed.
pub open spec fn wf_segs(segs: Seq<AnonSegV>) -> bool {
    &&& segs.len() > 0
    &&& forall|i: int| 0 <= i < segs.len() ==> wf_word(#[trigger] segs[i].word)
}

/// The rendering of one path step: the word, then the number in decimal.
pub open spec fn seg_label(s: AnonSegV) -> Seq<char> {
    s.word + dec(s.num)
}

/// The label of an identity path: its steps' renderings joined by `_`.
pub open spec fn label_of(segs: Seq<AnonSegV>) -> Seq<char>
    decreases segs.len(),
{
    if segs.len() == 0 {
        Seq::empty()
    } else if segs.len() == 1 {
        seg_label(segs[0])
    } else {
        seg_label(segs[0]) + seq!['_'] + label_of(segs.drop_first())
    }
}

/// An anonymous identity: the path of a nested sub-record, scoped to its
/// parent entity and field, one step per nesting level.
pub struct AnonId {
    pub segs: Vec<AnonSeg>,
}

impl DeepView for AnonId {
    type V = Seq<AnonSegV>;

    open spec fn deep_view(&self) -> Seq<AnonSegV> {
        self.segs.deep_view()
    }
}

impl AnonId {
    /// Well-formedness of the identity.
    pub open spec fn wf(&self) -> bool {
        wf_segs(self.deep_view())
    }

    /// The identity of a sub-record rooted directly at the entity of kind
    /// `word` with numeric id `num`.
    pub fn root(word: &str, num: u64) -> (r: AnonId)
        requires
            wf_word(word@),
        ensures
            r.deep_view() == seq![AnonSegV { word: word@, num: num as nat }],
            r.wf(),
    {
        let mut segs: Vec<AnonSeg> = Vec::new();
        segs.push(AnonSeg { word: String::from_str(word), num });
        let r = AnonId { segs };
        proof {
            assert(r.deep_view() =~= seq![AnonSegV { word: word@, num: num as nat }]);
        }
        r
    }

    /// The identity of the `num`-th occurrence of nested field `word`
    /// under `self`.
    pub fn child(&self, word: &str, num: u64) -> (r: AnonId)
        requires
            wf_word(word@),
        ensures
            r.deep_view() == self.deep_view().push(
                AnonSegV { word: word@, num: num as nat },
            ),
            self.wf() ==> r.wf(),
    {
        let mut segs: Vec<AnonSeg> = Vec::new();
        let n = self.segs.len();
        let mut i: usize = 0;
        while i < n
            invariant
                n == self.segs.len(),
                i <= n,
                segs.deep_view() == self.deep_view().take(i as int),
            decreases n - i,
        {
            let ghost pre = segs.deep_view();
            let seg = &self.segs[i];
            let copy = AnonSeg { word: String::from_str(seg.word.as_str()), num: seg.num };
            proof {
                assert(copy.deep_view() == self.segs@[i as int].deep_view());
            }
            segs.push(copy);
            proof {
                assert(segs.deep_view() =~= pre.push(copy.deep_view()));
                assert(segs.deep_view() =~= self.deep_view().take(i + 1 as int));
            }
            i = i + 1;
        }
        segs.push(AnonSeg { word: String::from_str(word), num });
        let r = AnonId { segs };
        proof {
            assert(self.deep_view().take(n as int) =~= self.deep_view());
            assert(r.deep_view() =~= self.deep_view().push(
                AnonSegV { word: word@, num: num as nat },
            ));
        }
        r
    }

    /// An identity with the same path.
    pub fn duplicate(&self) -> (r: AnonId)
        ensures
            r.deep_view() == self.deep_view(),
    {
        let mut segs: Vec<AnonSeg> = Vec::new();
        let n = self.segs.len();
        let mut i: usize = 0;
        while i < n
            invariant
                n == self.segs.len(),
                i <= n,
                segs.deep_view() == self.deep_view().take(i as int),
            decreases n - i,
        {
            let ghost pre = segs.deep_view();
            let seg = &self.segs[i];
            let copy = AnonSeg { word: String::from_str(seg.word.as_str()), num: seg.num };
            proof {
                assert(copy.deep_view() == self.segs@[i as int].deep_view());
            }
            segs.push(copy);
            proof {
                assert(segs.deep_view() =~= pre.push(copy.deep_view()));
                assert(segs.deep_view() =~= self.deep_view().take(i + 1 as int));
            }
            i = i + 1;
        }
        proof {
            assert(self.deep_view().take(n as int) =~= self.deep_view());
        }
        AnonId { segs }
    }

    /// Renders the identity's label.
    pub fn label(&self) -> (s: String)
        ensures
            s@ == label_of(self.deep_view()),
    {
        let mut s = String::new();
        let n = self.segs.len();
        let mut i: usize = 0;
        while i < n
            invariant
                n == self.segs.len(),
                i <= n,
                s@ == label_of(self.deep_view().take(i as int)),
            decreases n - i,
        {
            if i > 0 {
                push_char(&mut s, '_');
            }
            let seg = &self.segs[i];
            s.append(seg.word.as_str());
            push_u64(&mut s, seg.num);
            proof {
                lemma_label_snoc(self.deep_view().take(i + 1 as int));
                assert(self.deep_view().take(i + 1 as int).drop_last()
                    =~= self.deep_view().take(i as int));
                if i > 0 {
                    lemma_concat_assoc(
                        label_of(self.deep_view().take(i as int)),
                        seq!['_'],
                        seg_label(seg.deep_view()),
                    );
                    lemma_concat_assoc(
                        label_of(self.deep_view().take(i as int)) + seq!['_'],
                        seg.word@,
                        dec(seg.num as nat),
                    );
                } else {
                    assert(Seq::<char>::empty() + seg.word@ =~= seg.word@);
                }
            }
            i = i + 1;
        }
        proof {
            assert(self.deep_view().take(n as int) =~= self.deep_view());
        }
        s
    }
}

/// The label of a nonempty path, decomposed at its last step.
proof fn lemma_label_snoc(segs: Seq<AnonSegV>)
    requires
        segs.len() > 0,
    ensures
        segs.len() == 1 ==> label_of(segs) == seg_label(segs[0]),
        segs.len() > 1 ==> label_of(segs) == label_of(segs.drop_last()) + seq!['_']
            + seg_label(segs.last()),
    decreases segs.len(),
{
    if segs.len() > 1 {
        let rest = segs.drop_first();
        lemma_label_snoc(rest);
        assert(rest.drop_last() =~= segs.drop_last().drop_first());
        assert(rest.last() == segs.last());
        if segs.len() == 2 {
            assert(segs.drop_last().len() == 1);
            assert(segs.drop_last()[0] == segs[0]);
        } else {
            lemma_concat_assoc(seg_label(segs[0]), seq!['_'], label_of(rest.drop_last()));
            lemma_concat_assoc(seg_label(segs[0]), seq!['_'] + label_of(rest.drop_last()),
                seq!['_'] + seg_label(rest.last()));
            lemma_concat_assoc(seq!['_'], label_of(rest.drop_last()),
                seq!['_'] + seg_label(rest.last()));
            lemma_concat_assoc(seg_label(segs[0]) + seq!['_'],
                label_of(segs.drop_last().drop_first()), seq!['_'] + seg_label(segs.last()));
            lemma_concat_assoc(label_of(segs.drop_last()), seq!['_'], seg_label(segs.last()));
        }
    }
}

/// Well-formed identity paths render injectively: equal labels come only
/// from equal paths.
pub proof fn lemma_label_injective(a: Seq<AnonSegV>, b: Seq<AnonSegV>)
    requires
        wf_segs(a),
        wf_segs(b),
        label_of(a) == label_of(b),
    ensures
        a == b,
    decreases a.len(),
{
    lemma_dec_digits(a[0].num);
    lemma_dec_digits(b[0].num);
    let ra: Seq<char> = if a.len() == 1 { Seq::empty() } else {
        seq!['_'] + label_of(a.drop_first())
    };
    let rb: Seq<char> = if b.len() == 1 { Seq::empty() } else {
        seq!['_'] + label_of(b.drop_first())
    };
    assert(label_of(a) == a[0].word + (dec(a[0].num) + ra)) by {
        if a.len() == 1 {
            assert(a[0].word + (dec(a[0].num) + ra) =~= a[0].word + dec(a[0].num));
        } else {
            lemma_concat_assoc(a[0].word + dec(a[0].num), seq!['_'], label_of(a.drop_first()));
            lemma_concat_assoc(a[0].word, dec(a[0].num), ra);
        }
    }
    assert(label_of(b) == b[0].word + (dec(b[0].num) + rb)) by {
        if b.len() == 1 {
            assert(b[0].word + (dec(b[0].num) + rb) =~= b[0].word + dec(b[0].num));
        } else {
            lemma_concat_assoc(b[0].word + dec(b[0].num), seq!['_'], label_of(b.drop_first()));
            lemma_concat_assoc(b[0].word, dec(b[0].num), rb);
        }
    }
    assert((dec(a[0].num) + ra)[0] == dec(a[0].num)[0]);
    assert((dec(b[0].num) + rb)[0] == dec(b[0].num)[0]);
    lemma_class_split(a[0].word, dec(a[0].num) + ra, b[0].word, dec(b[0].num) + rb,
        |c: char| is_alpha(c));
    assert(ra.len() > 0 ==> ra[0] == '_');
    assert(rb.len() > 0 ==> rb[0] == '_');
    lemma_class_split(dec(a[0].num), ra, dec(b[0].num), rb, |c: char| is_digit(c));
    lemma_dec_injective(a[0].num, b[0].num);
    assert(a[0] =~= b[0]);
    if a.len() == 1 {
        assert(rb.len() == 0);
        assert(b.len() == 1) by {
            if b.len() > 1 {
                assert(rb[0] == '_');
            }
        }
        assert(a =~= b);
    } else {
        assert(b.len() > 1) by {
            if b.len() == 1 {
                assert(ra[0] == '_');
            }
        }
        assert(label_of(a.drop_first()) =~= label_of(b.drop_first())) by {
            assert(forall|i: int| 0 <= i < label_of(a.drop_first()).len()
                ==> label_of(a.drop_first())[i] == ra[i + 1] == rb[i + 1]
                    == #[trigger] label_of(b.drop_first())[i]);
        }
        assert(wf_segs(a.drop_first()));
        assert(wf_segs(b.drop_first()));
        lemma_label_injective(a.drop_first(), b.drop_first());
        assert(a.len() == b.len());
        assert(forall|i: int| 1 <= i < a.len()
            ==> #[trigger] a[i] == a.drop_first()[i - 1] && #[trigger] b[i]
                == b.drop_first()[i - 1]);
        assert(a =~= b);
    }
}

/// Two identity paths of different lengths differ.
pub proof fn lemma_paths_differ_len(a: Seq<AnonSegV>, b: Seq<AnonSegV>)
    requires
        a.len() != b.len(),
    ensures
        a != b,
{
}

/// Two identity paths differ when some step's word does.
pub proof fn lemma_paths_differ_word(a: Seq<AnonSegV>, b: Seq<AnonSegV>, i: int)
    requires
        0 <= i < a.len(),
        0 <= i < b.len(),
        a[i].word != b[i].word,
    ensures
        a != b,
{
    if a == b {
        assert(a[i] == b[i]);
    }
}

/// Two identity paths differ when some step's number does.
pub proof fn lemma_paths_differ_num(a: Seq<AnonSegV>, b: Seq<AnonSegV>, i: int)
    requires
        0 <= i < a.len(),
        0 <= i < b.len(),
        a[i].num != b[i].num,
    ensures
        a != b,
{
    if a == b {
        assert(a[i] == b[i]);
    }
}

/// Collision-freedom of anonymous identities: two distinct nested
/// sub-record paths are never assigned the same label, anywhere in the
/// output.
pub proof fn lemma_anonymous_collision_free(a: Seq<AnonSegV>, b: Seq<AnonSegV>)
    requires
        wf_segs(a),
        wf_segs(b),
        a != b,
    ensures
        label_of(a) != label_of(b),
{
    if label_of(a) == label_of(b) {
        lemma_label_injective(a, b);
    }
}

} // verus!
