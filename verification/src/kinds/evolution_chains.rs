//! Extraction of evolution-chain documents.

use vstd::prelude::*;
use crate::chars::lemma_concat_assoc;
use crate::error::{ErrorV, PipelineError};
use crate::extract::{all_ok, anon_st, bool_st, class_st, Emitter, first_bad, flat_map_idx,
    flat_map_of, int_st, lemma_flat_map_idx_snoc, lemma_flat_map_snoc, link_st, Ns,
    opt_int_sts, opt_link_sts, opt_url, pred_iri, text_st};
use crate::ident::{AnonId, AnonSegV, wf_word};
use crate::model::{ChainLink, ChainLinkV, EvolutionChain, EvolutionChainV, EvolutionDetail,
    EvolutionDetailV};
use crate::statement::{EntityRef, RefV, Statement, StatementV};

verus! {

/// The URLs the first half of an evolution detail checks.
pub open spec fn detail_urls_a(det: EvolutionDetailV) -> Seq<Seq<char>> {
    opt_url(det.item_url)
    + seq![det.trigger_url]
    + opt_url(det.held_item_url)
    + opt_url(det.known_move_url)
    + opt_url(det.known_move_type_url)
    + opt_url(det.location_url)
}

/// The URLs the second half of an evolution detail checks.
pub open spec fn detail_urls_b(det: EvolutionDetailV) -> Seq<Seq<char>> {
    opt_url(det.party_species_url)
    + opt_url(det.party_type_url)
    + opt_url(det.trade_species_url)
}

/// The URLs one evolution detail checks, in order.
pub open spec fn detail_urls(det: EvolutionDetailV) -> Seq<Seq<char>> {
    detail_urls_a(det) + detail_urls_b(det)
}

/// The URLs one chain link checks, in order.
pub open spec fn chain_link_urls(l: ChainLinkV) -> Seq<Seq<char>> {
    seq![l.species_url] + flat_map_of(l.details, |det: EvolutionDetailV| detail_urls(det))
}

/// The URLs an evolution-chain extraction checks, in order.
pub open spec fn evolution_chain_urls(url: Seq<char>, d: EvolutionChainV) -> Seq<Seq<char>> {
    seq![url]
    + opt_url(d.baby_trigger_item_url)
    + flat_map_of(d.links, |l: ChainLinkV| chain_link_urls(l))
}

/// The anonymous identity of the `i`-th link of chain `id`.
pub open spec fn chain_link_id(id: nat, i: int) -> Seq<AnonSegV> {
    seq![
        AnonSegV { word: "chain"@, num: id },
        AnonSegV { word: "link"@, num: i as nat },
    ]
}

/// The first half of an evolution detail's statement block: the block's
/// anonymous root and the fields up to the minimum level.
pub open spec fn detail_sts_a(chain_id: nat, i: int, j: int, det: EvolutionDetailV)
    -> Seq<StatementV> {
    let a = chain_link_id(chain_id, i);
    let b = a.push(AnonSegV { word: "evolutionDetail"@, num: j as nat });
    let sb = RefV::Anonymous(b);
    seq![anon_st(RefV::Anonymous(a), pred_iri(Ns::Poke, "evolutionDetail"@), b)]
    + opt_link_sts(sb, pred_iri(Ns::Poke, "item"@), det.item_url)
    + seq![link_st(sb, pred_iri(Ns::Poke, "trigger"@), det.trigger_url)]
    + opt_int_sts(sb, pred_iri(Ns::Poke, "gender"@), det.gender)
    + opt_link_sts(sb, pred_iri(Ns::Poke, "heldItem"@), det.held_item_url)
    + opt_link_sts(sb, pred_iri(Ns::Poke, "knownMove"@), det.known_move_url)
    + opt_link_sts(sb, pred_iri(Ns::Poke, "knownMoveType"@), det.known_move_type_url)
    + opt_link_sts(sb, pred_iri(Ns::Poke, "location"@), det.location_url)
    + opt_int_sts(sb, pred_iri(Ns::Kg, "minLevelToLearn"@), det.min_level)
}

/// The middle part of an evolution detail's statement block; the rain
/// mark appears only when set.
pub open spec fn detail_sts_b1(chain_id: nat, i: int, j: int, det: EvolutionDetailV)
    -> Seq<StatementV> {
    let a = chain_link_id(chain_id, i);
    let b = a.push(AnonSegV { word: "evolutionDetail"@, num: j as nat });
    let sb = RefV::Anonymous(b);
    opt_int_sts(sb, pred_iri(Ns::Poke, "minHappiness"@), det.min_happiness)
    + opt_int_sts(sb, pred_iri(Ns::Poke, "minBeauty"@), det.min_beauty)
    + opt_int_sts(sb, pred_iri(Ns::Poke, "minAffections"@), det.min_affection)
    + (if det.needs_overworld_rain {
        seq![bool_st(sb, pred_iri(Ns::Poke, "needsOverworldRain"@), true)]
    } else {
        Seq::empty()
    })
}

/// The last part of an evolution detail's statement block; the
/// upside-down mark appears only when set.
pub open spec fn detail_sts_b2(chain_id: nat, i: int, j: int, det: EvolutionDetailV)
    -> Seq<StatementV> {
    let a = chain_link_id(chain_id, i);
    let b = a.push(AnonSegV { word: "evolutionDetail"@, num: j as nat });
    let sb = RefV::Anonymous(b);
    opt_link_sts(sb, pred_iri(Ns::Poke, "partySpecies"@), det.party_species_url)
    + opt_link_sts(sb, pred_iri(Ns::Poke, "partyType"@), det.party_type_url)
    + opt_int_sts(sb, pred_iri(Ns::Poke, "relativePhysicalStats"@),
        det.relative_physical_stats)
    + seq![text_st(sb, pred_iri(Ns::Poke, "timeOfDay"@), det.time_of_day)]
    + opt_link_sts(sb, pred_iri(Ns::Poke, "tradeSpecies"@), det.trade_species_url)
    + (if det.turn_upside_down {
        seq![bool_st(sb, pred_iri(Ns::Poke, "turnUpsideDown"@), true)]
    } else {
        Seq::empty()
    })
}

/// The second half of an evolution detail's statement block.
pub open spec fn detail_sts_b(chain_id: nat, i: int, j: int, det: EvolutionDetailV)
    -> Seq<StatementV> {
    detail_sts_b1(chain_id, i, j, det) + detail_sts_b2(chain_id, i, j, det)
}

/// The statement block of the `j`-th evolution detail of the `i`-th link
/// of a chain.
pub open spec fn detail_sts(chain_id: nat, i: int, j: int, det: EvolutionDetailV)
    -> Seq<StatementV> {
    detail_sts_a(chain_id, i, j, det) + detail_sts_b(chain_id, i, j, det)
}

/// The statement block of the `i`-th link of a chain; the baby flag
/// hangs off the chain itself.
pub open spec fn chain_link_sts(s: RefV, chain_id: nat, i: int, l: ChainLinkV)
    -> Seq<StatementV> {
    let a = chain_link_id(chain_id, i);
    seq![
        anon_st(s, pred_iri(Ns::Poke, "link"@), a),
        bool_st(s, pred_iri(Ns::Poke, "isBaby"@), l.is_baby),
        link_st(RefV::Anonymous(a), pred_iri(Ns::Poke, "species"@), l.species_url),
    ]
    + flat_map_idx(l.details, 0, |j: int, det: EvolutionDetailV| detail_sts(chain_id, i, j, det))
}

/// Emits the first half of one evolution detail's block.
#[verifier::loop_isolation(false)]
#[verifier::rlimit(100)]
fn emit_detail_a(em: &mut Emitter, a: &AnonId, aref: &EntityRef, bref: &EntityRef,
    chain_id: Ghost<nat>, idx: Ghost<int>, j: u64, det: &EvolutionDetail)
    requires
        old(em).wf(),
        a.deep_view() == chain_link_id(chain_id@, idx@).push(
            AnonSegV { word: "evolutionDetail"@, num: j as nat }),
        aref.deep_view() == RefV::Anonymous(chain_link_id(chain_id@, idx@)),
        bref.deep_view() == RefV::Anonymous(a.deep_view()),
    ensures
        final(em).wf(),
        final(em).urls_view() == old(em).urls_view() + detail_urls_a(det.deep_view()),
        final(em).ok() ==> old(em).ok(),
        final(em).ok() ==> final(em).out_view() == old(em).out_view()
            + detail_sts_a(chain_id@, idx@, j as int, det.deep_view()),
        !old(em).ok() ==> final(em).out_view() == old(em).out_view(),
{
    em.anon_obj(aref, Ns::Poke, "evolutionDetail", a);
    em.opt_link(bref, Ns::Poke, "item", &det.item_url);
    em.link(bref, Ns::Poke, "trigger", det.trigger_url.as_str());
    em.opt_int(bref, Ns::Poke, "gender", &det.gender);
    em.opt_link(bref, Ns::Poke, "heldItem", &det.held_item_url);
    em.opt_link(bref, Ns::Poke, "knownMove", &det.known_move_url);
    em.opt_link(bref, Ns::Poke, "knownMoveType", &det.known_move_type_url);
    em.opt_link(bref, Ns::Poke, "location", &det.location_url);
    em.opt_int(bref, Ns::Kg, "minLevelToLearn", &det.min_level);
    proof {
        let dd = det.deep_view();
        assert(em.urls_view() =~= old(em).urls_view() + detail_urls_a(dd));
        if em.ok() {
            assert(em.out_view() =~= old(em).out_view() + detail_sts_a(chain_id@, idx@,
                j as int, dd));
        }
    }
}

/// Emits the middle part of one evolution detail's block.
#[verifier::loop_isolation(false)]
#[verifier::rlimit(100)]
fn emit_detail_b1(em: &mut Emitter, bref: &EntityRef, chain_id: Ghost<nat>, idx: Ghost<int>,
    j: u64, det: &EvolutionDetail)
    requires
        old(em).wf(),
        bref.deep_view() == RefV::Anonymous(chain_link_id(chain_id@, idx@).push(
            AnonSegV { word: "evolutionDetail"@, num: j as nat })),
    ensures
        final(em).wf(),
        final(em).urls_view() == old(em).urls_view(),
        final(em).ok() ==> old(em).ok(),
        final(em).ok() ==> final(em).out_view() == old(em).out_view()
            + detail_sts_b1(chain_id@, idx@, j as int, det.deep_view()),
        !old(em).ok() ==> final(em).out_view() == old(em).out_view(),
{
    em.opt_int(bref, Ns::Poke, "minHappiness", &det.min_happiness);
    em.opt_int(bref, Ns::Poke, "minBeauty", &det.min_beauty);
    em.opt_int(bref, Ns::Poke, "minAffections", &det.min_affection);
    if det.needs_overworld_rain {
        em.lit_bool(bref, Ns::Poke, "needsOverworldRain", det.needs_overworld_rain);
    }
    proof {
        let dd = det.deep_view();
        if em.ok() {
            assert(em.out_view() =~= old(em).out_view() + detail_sts_b1(chain_id@, idx@,
                j as int, dd));
        }
    }
}

/// Emits the last part of one evolution detail's block.
#[verifier::loop_isolation(false)]
#[verifier::rlimit(100)]
fn emit_detail_b2(em: &mut Emitter, bref: &EntityRef, chain_id: Ghost<nat>, idx: Ghost<int>,
    j: u64, det: &EvolutionDetail)
    requires
        old(em).wf(),
        bref.deep_view() == RefV::Anonymous(chain_link_id(chain_id@, idx@).push(
            AnonSegV { word: "evolutionDetail"@, num: j as nat })),
    ensures
        final(em).wf(),
        final(em).urls_view() == old(em).urls_view() + detail_urls_b(det.deep_view()),
        final(em).ok() ==> old(em).ok(),
        final(em).ok() ==> final(em).out_view() == old(em).out_view()
            + detail_sts_b2(chain_id@, idx@, j as int, det.deep_view()),
        !old(em).ok() ==> final(em).out_view() == old(em).out_view(),
{
    em.opt_link(bref, Ns::Poke, "partySpecies", &det.party_species_url);
    em.opt_link(bref, Ns::Poke, "partyType", &det.party_type_url);
    em.opt_int(bref, Ns::Poke, "relativePhysicalStats", &det.relative_physical_stats);
    em.lit_text(bref, Ns::Poke, "timeOfDay", det.time_of_day.as_str());
    em.opt_link(bref, Ns::Poke, "tradeSpecies", &det.trade_species_url);
    if det.turn_upside_down {
        em.lit_bool(bref, Ns::Poke, "turnUpsideDown", det.turn_upside_down);
    }
    proof {
        let dd = det.deep_view();
        assert(em.urls_view() =~= old(em).urls_view() + detail_urls_b(dd));
        if em.ok() {
            assert(em.out_view() =~= old(em).out_view() + detail_sts_b2(chain_id@, idx@,
                j as int, dd));
        }
    }
}

/// Emits the statement block of one evolution detail.
#[verifier::loop_isolation(false)]
fn emit_detail(em: &mut Emitter, a: &AnonId, aref: &EntityRef, chain_id: Ghost<nat>,
    idx: Ghost<int>, j: u64, det: &EvolutionDetail)
    requires
        old(em).wf(),
        a.deep_view() == chain_link_id(chain_id@, idx@),
        aref.deep_view() == RefV::Anonymous(chain_link_id(chain_id@, idx@)),
    ensures
        final(em).wf(),
        final(em).urls_view() == old(em).urls_view() + detail_urls(det.deep_view()),
        final(em).ok() ==> old(em).ok(),
        final(em).ok() ==> final(em).out_view() == old(em).out_view()
            + detail_sts(chain_id@, idx@, j as int, det.deep_view()),
        !old(em).ok() ==> final(em).out_view() == old(em).out_view(),
{
    let ghost av = chain_link_id(chain_id@, idx@);
    proof {
        reveal_strlit("evolutionDetail");
        assert(wf_word("evolutionDetail"@));
    }
    let b = a.child("evolutionDetail", j);
    proof {
        assert(b.deep_view() =~= av.push(AnonSegV { word: "evolutionDetail"@, num: j as nat }));
    }
    let bref = EntityRef::Anonymous(b.duplicate());
    emit_detail_a(em, &b, aref, &bref, chain_id, idx, j, det);
    let ghost mid_out = em.out_view();
    emit_detail_b1(em, &bref, chain_id, idx, j, det);
    emit_detail_b2(em, &bref, chain_id, idx, j, det);
    proof {
        let dd = det.deep_view();
        crate::chars::lemma_concat_assoc(old(em).urls_view(), detail_urls_a(dd),
            detail_urls_b(dd));
        if em.ok() {
            crate::chars::lemma_concat_assoc(mid_out,
                detail_sts_b1(chain_id@, idx@, j as int, dd),
                detail_sts_b2(chain_id@, idx@, j as int, dd));
            crate::chars::lemma_concat_assoc(old(em).out_view(),
                detail_sts_a(chain_id@, idx@, j as int, dd),
                detail_sts_b(chain_id@, idx@, j as int, dd));
        }
    }
}

/// Emits the statements of one chain link.
#[verifier::loop_isolation(false)]
#[verifier::rlimit(100)]
fn emit_chain_link(em: &mut Emitter, subject: &EntityRef, chain_id: u64, idx: u64,
    link: &ChainLink)
    requires
        old(em).wf(),
    ensures
        final(em).wf(),
        final(em).urls_view() == old(em).urls_view() + chain_link_urls(link.deep_view()),
        final(em).ok() <==> old(em).ok() && all_ok(chain_link_urls(link.deep_view())),
        final(em).ok() ==> final(em).out_view() == old(em).out_view()
            + chain_link_sts(subject.deep_view(), chain_id as nat, idx as int,
                link.deep_view()),
        !old(em).ok() ==> final(em).out_view() == old(em).out_view(),
{
    let ghost s = subject.deep_view();
    let ghost lv = link.deep_view();
    proof {
        reveal_strlit("chain");
        reveal_strlit("link");
        reveal_strlit("evolutionDetail");
        assert(wf_word("chain"@));
        assert(wf_word("link"@));
        assert(wf_word("evolutionDetail"@));
    }
    let a = AnonId::root("chain", chain_id).child("link", idx);
    proof {
        assert(a.deep_view() =~= chain_link_id(chain_id as nat, idx as int));
    }
    em.anon_obj(subject, Ns::Poke, "link", &a);
    em.lit_bool(subject, Ns::Poke, "isBaby", link.is_baby);
    let aref = EntityRef::Anonymous(a.duplicate());
    em.link(&aref, Ns::Poke, "species", link.species_url.as_str());
    let ghost av = chain_link_id(chain_id as nat, idx as int);
    let ghost fixed = seq![
        anon_st(s, pred_iri(Ns::Poke, "link"@), av),
        bool_st(s, pred_iri(Ns::Poke, "isBaby"@), lv.is_baby),
        link_st(RefV::Anonymous(av), pred_iri(Ns::Poke, "species"@), lv.species_url),
    ];
    let ghost base_urls = old(em).urls_view() + seq![lv.species_url];
    let ghost base_out = old(em).out_view();
    proof {
        assert(em.urls_view() =~= base_urls);
        if em.ok() {
            assert(em.out_view() =~= base_out + fixed);
        }
    }
    let ghost du = |det: EvolutionDetailV| detail_urls(det);
    let ghost ds = |j: int, det: EvolutionDetailV| detail_sts(chain_id as nat, idx as int, j,
        det);
    let ghost entry_ok = em.ok();
    let n = link.details.len();
    let mut j: usize = 0;
    while j < n
        invariant
            em.wf(),
            em.ok() ==> entry_ok,
            !old(em).ok() ==> em.out_view() == old(em).out_view(),
            n == link.details.len(),
            j <= n,
            em.urls_view() == base_urls
                + flat_map_of(link.details.deep_view().take(j as int), du),
            em.ok() ==> em.out_view() == base_out + fixed
                + flat_map_idx(link.details.deep_view().take(j as int), 0, ds),
        decreases n - j,
    {
        let ghost pre_urls = em.urls_view();
        let ghost pre_out = em.out_view();
        emit_detail(em, &a, &aref, Ghost(chain_id as nat), Ghost(idx as int), j as u64,
            &link.details[j]);
        proof {
            let dvw = link.details.deep_view();
            let dd = dvw[j as int];
            assert(dvw.take(j + 1 as int) =~= dvw.take(j as int).push(dd));
            lemma_flat_map_snoc(dvw.take(j as int), dd, du);
            lemma_concat_assoc(base_urls, flat_map_of(dvw.take(j as int), du), du(dd));
            assert(em.urls_view() =~= base_urls + flat_map_of(dvw.take(j + 1 as int), du));
            if em.ok() {
                lemma_flat_map_idx_snoc(dvw.take(j as int), 0, dd, ds);
                lemma_concat_assoc(base_out + fixed,
                    flat_map_idx(dvw.take(j as int), 0, ds), ds(j as int, dd));
                assert(em.out_view() =~= base_out + fixed
                    + flat_map_idx(dvw.take(j + 1 as int), 0, ds));
            }
        }
        j = j + 1;
    }
    proof {
        assert(link.details.deep_view().take(n as int) =~= link.details.deep_view());
        lemma_concat_assoc(old(em).urls_view(), seq![lv.species_url],
            flat_map_of(lv.details, du));
        assert(seq![lv.species_url] + flat_map_of(lv.details, du)
            =~= chain_link_urls(lv));
        crate::extract::lemma_all_ok_concat(old(em).urls_view(), chain_link_urls(lv));
        if em.ok() {
            lemma_concat_assoc(base_out, fixed, flat_map_idx(lv.details, 0, ds));
            assert(fixed + flat_map_idx(lv.details, 0, ds)
                =~= chain_link_sts(s, chain_id as nat, idx as int, lv));
        }
    }
}

/// Extracts the statement block of one chain link on its own, as the
/// `i`-th link of the chain entity at `url` with numeric id `chain_id`.
#[verifier::loop_isolation(false)]
pub fn chain_link_to_statements(url: &str, chain_id: u64, index: u64, link: &ChainLink)
    -> (r: Result<Vec<Statement>, PipelineError>)
    ensures
        r.is_ok() <==> all_ok(seq![url@] + chain_link_urls(link.deep_view())),
        r matches Ok(v) ==> v.deep_view() == chain_link_sts(RefV::Named(url@),
            chain_id as nat, index as int, link.deep_view()),
        r matches Err(e) ==> e.deep_view() == ErrorV::InvalidIdentity(
            first_bad(seq![url@] + chain_link_urls(link.deep_view()))),
{
    let (mut em, subject) = Emitter::open(url);
    emit_chain_link(&mut em, &subject, chain_id, index, link);
    proof {
        assert(em.urls_view() == seq![url@] + chain_link_urls(link.deep_view()));
        if em.ok() {
            assert(Seq::<StatementV>::empty() + chain_link_sts(RefV::Named(url@),
                chain_id as nat, index as int, link.deep_view())
                =~= chain_link_sts(RefV::Named(url@), chain_id as nat, index as int,
                    link.deep_view()));
        }
    }
    em.finish()
}

/// The statements extracted from one evolution-chain document.
pub open spec fn evolution_chain_sts(url: Seq<char>, d: EvolutionChainV) -> Seq<StatementV> {
    let s = RefV::Named(url);
    seq![
        class_st(s, "EvolutionChain"@),
        int_st(s, pred_iri(Ns::Schema, "identifier"@), d.id as int),
    ]
    + opt_link_sts(s, pred_iri(Ns::Poke, "triggerItem"@), d.baby_trigger_item_url)
    + flat_map_idx(d.links, 0, |i: int, l: ChainLinkV| chain_link_sts(s, d.id, i, l))
}

/// Extracts the statements of one evolution chain.
#[verifier::loop_isolation(false)]
pub fn evolution_chain_to_statements(url: &str, d: &EvolutionChain)
    -> (r: Result<Vec<Statement>, PipelineError>)
    ensures
        r.is_ok() <==> all_ok(evolution_chain_urls(url@, d.deep_view())),
        r matches Ok(v) ==> v.deep_view() == evolution_chain_sts(url@, d.deep_view()),
        r matches Err(e) ==> e.deep_view()
            == ErrorV::InvalidIdentity(first_bad(evolution_chain_urls(url@, d.deep_view()))),
{
    let ghost dv = d.deep_view();
    let ghost s = RefV::Named(url@);
    let (mut em, subject) = Emitter::open(url);
    em.class(&subject, "EvolutionChain");
    em.lit_uint(&subject, Ns::Schema, "identifier", d.id);
    em.opt_link(&subject, Ns::Poke, "triggerItem", &d.baby_trigger_item_url);
    let ghost head = seq![
        class_st(s, "EvolutionChain"@),
        int_st(s, pred_iri(Ns::Schema, "identifier"@), dv.id as int),
    ] + opt_link_sts(s, pred_iri(Ns::Poke, "triggerItem"@), dv.baby_trigger_item_url);
    let ghost head_urls = seq![url@] + opt_url(dv.baby_trigger_item_url);
    proof {
        assert(em.urls_view() == head_urls);
        if em.ok() {
            assert(em.out_view() =~= seq![
                class_st(s, "EvolutionChain"@),
                int_st(s, pred_iri(Ns::Schema, "identifier"@), dv.id as int),
            ] + opt_link_sts(s, pred_iri(Ns::Poke, "triggerItem"@),
                dv.baby_trigger_item_url));
        }
    }
    let ghost lu = |l: ChainLinkV| chain_link_urls(l);
    let ghost ls = |i: int, l: ChainLinkV| chain_link_sts(s, dv.id, i, l);
    let n = d.links.len();
    let mut i: usize = 0;
    while i < n
        invariant
            em.wf(),
            n == d.links.len(),
            i <= n,
            em.urls_view() == head_urls + flat_map_of(d.links.deep_view().take(i as int), lu),
            em.ok() ==> em.out_view() == head
                + flat_map_idx(d.links.deep_view().take(i as int), 0, ls),
        decreases n - i,
    {
        let ghost pre_urls = em.urls_view();
        let ghost pre_out = em.out_view();
        emit_chain_link(&mut em, &subject, d.id, i as u64, &d.links[i]);
        proof {
            let lvw = d.links.deep_view();
            assert(lvw.take(i + 1 as int) =~= lvw.take(i as int).push(lvw[i as int]));
            lemma_flat_map_snoc(lvw.take(i as int), lvw[i as int], lu);
            lemma_concat_assoc(head_urls, flat_map_of(lvw.take(i as int), lu),
                lu(lvw[i as int]));
            assert(em.urls_view() =~= head_urls + flat_map_of(lvw.take(i + 1 as int), lu));
            if em.ok() {
                lemma_flat_map_idx_snoc(lvw.take(i as int), 0, lvw[i as int], ls);
                lemma_concat_assoc(head, flat_map_idx(lvw.take(i as int), 0, ls),
                    ls(i as int, lvw[i as int]));
                assert(em.out_view() =~= head + flat_map_idx(lvw.take(i + 1 as int), 0, ls));
            }
        }
        i = i + 1;
    }
    proof {
        assert(d.links.deep_view().take(n as int) =~= d.links.deep_view());
        assert(em.urls_view() == evolution_chain_urls(url@, dv));
        if em.ok() {
            assert(em.out_view() == evolution_chain_sts(url@, dv));
        }
    }
    em.finish()
}

} // verus!
