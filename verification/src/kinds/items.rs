//! Extraction of item documents.

use vstd::prelude::*;
use crate::chars::lemma_concat_assoc;
use crate::error::{ErrorV, PipelineError};
use crate::extract::{all_ok, anon_st, class_st, Emitter, first_bad, flat_map_idx, flat_map_of,
    int_st, lemma_flat_map_idx_snoc, lemma_flat_map_snoc, link_st, link_sts, loc_texts, Ns,
    opt_int_sts, opt_link_sts, opt_url, pred_iri, text_st};
use crate::ident::{AnonId, AnonSegV, wf_word};
use crate::model::{EffectEntryV, GameIndexV, HeldByV, HeldVersionDetailV, Item, ItemV};
use crate::statement::{EntityRef, RefV, Statement, StatementV};

verus! {

/// The URLs an item extraction checks, in order.
pub open spec fn item_urls(url: Seq<char>, d: ItemV) -> Seq<Seq<char>> {
    seq![url]
    + opt_url(d.fling_effect_url)
    + d.attribute_urls
    + seq![d.category_url]
    + flat_map_of(d.game_indices, |g: GameIndexV| seq![g.url])
    + opt_url(d.sprite_url)
    + flat_map_of(d.held_by, |h: HeldByV| seq![h.pokemon_url]
        + flat_map_of(h.version_details, |v: HeldVersionDetailV| seq![v.version_url]))
    + opt_url(d.baby_trigger_for_url)
}

/// The anonymous identity of the `i`-th effect entry of item `id`.
pub open spec fn item_effect_id(id: nat, i: int) -> Seq<AnonSegV> {
    seq![
        AnonSegV { word: "item"@, num: id },
        AnonSegV { word: "effect"@, num: i as nat },
    ]
}

/// The statement block of the `i`-th effect entry of an item, present
/// only in the chosen locale.
pub open spec fn item_effect_sts(s: RefV, id: nat, i: int, e: EffectEntryV, loc: Seq<char>)
    -> Seq<StatementV> {
    let a = item_effect_id(id, i);
    if e.locale == loc {
        seq![
            anon_st(s, pred_iri(Ns::Poke, "hasEffect"@), a),
            text_st(RefV::Anonymous(a), pred_iri(Ns::Schema, "description"@), e.effect),
            text_st(RefV::Anonymous(a), pred_iri(Ns::Poke, "shortEffect"@), e.short_effect),
        ]
    } else {
        Seq::empty()
    }
}

/// The anonymous identity of the `i`-th game index of item `id`.
pub open spec fn item_game_index_id(id: nat, i: int) -> Seq<AnonSegV> {
    seq![
        AnonSegV { word: "item"@, num: id },
        AnonSegV { word: "gameIndex"@, num: i as nat },
    ]
}

/// The statement block of the `i`-th game index of an item.
pub open spec fn item_game_index_sts(s: RefV, id: nat, i: int, g: GameIndexV)
    -> Seq<StatementV> {
    let a = item_game_index_id(id, i);
    seq![
        anon_st(s, pred_iri(Ns::Poke, "gameIndex"@), a),
        int_st(RefV::Anonymous(a), pred_iri(Ns::Poke, "index"@), g.game_index),
        link_st(RefV::Anonymous(a), pred_iri(Ns::Poke, "generation"@), g.url),
    ]
}

/// The anonymous identity of the `i`-th holding pokemon of item `id`.
pub open spec fn item_held_id(id: nat, i: int) -> Seq<AnonSegV> {
    seq![
        AnonSegV { word: "item"@, num: id },
        AnonSegV { word: "heldByPokemon"@, num: i as nat },
    ]
}

/// The statement block of the `j`-th version detail of the `i`-th
/// holding pokemon of an item.
pub open spec fn item_held_vd_sts(s: RefV, id: nat, i: int, j: int, v: HeldVersionDetailV)
    -> Seq<StatementV> {
    let a = item_held_id(id, i);
    let b = a.push(AnonSegV { word: "versionDetail"@, num: j as nat });
    seq![
        anon_st(RefV::Anonymous(a), pred_iri(Ns::Poke, "versionDetail"@), b),
        int_st(RefV::Anonymous(b), pred_iri(Ns::Poke, "rarity"@), v.rarity),
        link_st(RefV::Anonymous(b), pred_iri(Ns::Poke, "version"@), v.version_url),
    ]
}

/// The statement block of the `i`-th holding pokemon of an item.
pub open spec fn item_held_sts(s: RefV, id: nat, i: int, h: HeldByV) -> Seq<StatementV> {
    let a = item_held_id(id, i);
    seq![
        anon_st(s, pred_iri(Ns::Poke, "heldByPokemon"@), a),
        link_st(RefV::Anonymous(a), pred_iri(Ns::Poke, "pokemon"@), h.pokemon_url),
    ]
    + flat_map_idx(h.version_details, 0,
        |j: int, v: HeldVersionDetailV| item_held_vd_sts(s, id, i, j, v))
}

/// The statements extracted from one item document.
pub open spec fn item_sts(url: Seq<char>, d: ItemV, loc: Seq<char>) -> Seq<StatementV> {
    let s = RefV::Named(url);
    seq![
        class_st(s, "Item"@),
        int_st(s, pred_iri(Ns::Schema, "identifier"@), d.id as int),
        text_st(s, pred_iri(Ns::Schema, "name"@), d.name),
        int_st(s, pred_iri(Ns::Poke, "cost"@), d.cost),
    ]
    + opt_int_sts(s, pred_iri(Ns::Poke, "flingPower"@), d.fling_power)
    + opt_link_sts(s, pred_iri(Ns::Poke, "flingEffect"@), d.fling_effect_url)
    + link_sts(s, pred_iri(Ns::Poke, "hasAttribute"@), d.attribute_urls)
    + seq![link_st(s, pred_iri(Ns::Poke, "itemCategory"@), d.category_url)]
    + flat_map_idx(d.effect_entries, 0,
        |i: int, e: EffectEntryV| item_effect_sts(s, d.id, i, e, loc))
    + loc_texts(s, pred_iri(Ns::Poke, "hasFlavorText"@), d.flavor_texts, loc)
    + flat_map_idx(d.game_indices, 0, |i: int, g: GameIndexV| item_game_index_sts(s, d.id, i, g))
    + loc_texts(s, pred_iri(Ns::Poke, "names"@), d.names, loc)
    + opt_link_sts(s, pred_iri(Ns::Poke, "defaultSprite"@), d.sprite_url)
    + flat_map_idx(d.held_by, 0, |i: int, h: HeldByV| item_held_sts(s, d.id, i, h))
    + opt_link_sts(s, pred_iri(Ns::Poke, "babyTriggerFor"@), d.baby_trigger_for_url)
}

/// Extracts the statements of one item.
#[verifier::loop_isolation(false)]
#[verifier::rlimit(100)]
pub fn item_to_statements(url: &str, d: &Item, locale: &str)
    -> (r: Result<Vec<Statement>, PipelineError>)
    ensures
        r.is_ok() <==> all_ok(item_urls(url@, d.deep_view())),
        r matches Ok(v) ==> v.deep_view() == item_sts(url@, d.deep_view(), locale@),
        r matches Err(e) ==> e.deep_view()
            == ErrorV::InvalidIdentity(first_bad(item_urls(url@, d.deep_view()))),
{
    let ghost dv = d.deep_view();
    let ghost s = RefV::Named(url@);
    let (mut em, subject) = Emitter::open(url);
    em.class(&subject, "Item");
    em.lit_uint(&subject, Ns::Schema, "identifier", d.id);
    em.lit_text(&subject, Ns::Schema, "name", d.name.as_str());
    em.lit_int(&subject, Ns::Poke, "cost", d.cost);
    em.opt_int(&subject, Ns::Poke, "flingPower", &d.fling_power);
    em.opt_link(&subject, Ns::Poke, "flingEffect", &d.fling_effect_url);
    em.links(&subject, Ns::Poke, "hasAttribute", &d.attribute_urls);
    em.link(&subject, Ns::Poke, "itemCategory", d.category_url.as_str());
    let ghost head = seq![
        class_st(s, "Item"@),
        int_st(s, pred_iri(Ns::Schema, "identifier"@), dv.id as int),
        text_st(s, pred_iri(Ns::Schema, "name"@), dv.name),
        int_st(s, pred_iri(Ns::Poke, "cost"@), dv.cost),
    ]
    + opt_int_sts(s, pred_iri(Ns::Poke, "flingPower"@), dv.fling_power)
    + opt_link_sts(s, pred_iri(Ns::Poke, "flingEffect"@), dv.fling_effect_url)
    + link_sts(s, pred_iri(Ns::Poke, "hasAttribute"@), dv.attribute_urls)
    + seq![link_st(s, pred_iri(Ns::Poke, "itemCategory"@), dv.category_url)];
    let ghost head_urls = seq![url@] + opt_url(dv.fling_effect_url) + dv.attribute_urls
        + seq![dv.category_url];
    proof {
        assert(em.urls_view() == head_urls);
        if em.ok() {
            assert(em.out_view() =~= seq![
                class_st(s, "Item"@),
                int_st(s, pred_iri(Ns::Schema, "identifier"@), dv.id as int),
                text_st(s, pred_iri(Ns::Schema, "name"@), dv.name),
                int_st(s, pred_iri(Ns::Poke, "cost"@), dv.cost),
            ]
            + opt_int_sts(s, pred_iri(Ns::Poke, "flingPower"@), dv.fling_power)
            + opt_link_sts(s, pred_iri(Ns::Poke, "flingEffect"@), dv.fling_effect_url)
            + link_sts(s, pred_iri(Ns::Poke, "hasAttribute"@), dv.attribute_urls)
            + seq![link_st(s, pred_iri(Ns::Poke, "itemCategory"@), dv.category_url)]);
        }
        reveal_strlit("item");
        reveal_strlit("effect");
        reveal_strlit("gameIndex");
        reveal_strlit("heldByPokemon");
        reveal_strlit("versionDetail");
        assert(wf_word("item"@));
        assert(wf_word("effect"@));
        assert(wf_word("gameIndex"@));
        assert(wf_word("heldByPokemon"@));
        assert(wf_word("versionDetail"@));
    }
    let root = AnonId::root("item", d.id);

    let ghost es = |i: int, e: EffectEntryV| item_effect_sts(s, dv.id, i, e, locale@);
    let n1 = d.effect_entries.len();
    let mut i: usize = 0;
    while i < n1
        invariant
            em.wf(),
            n1 == d.effect_entries.len(),
            i <= n1,
            em.urls_view() == head_urls,
            em.ok() ==> em.out_view() == head
                + flat_map_idx(d.effect_entries.deep_view().take(i as int), 0, es),
        decreases n1 - i,
    {
        let ghost pre_out = em.out_view();
        let e = &d.effect_entries[i];
        if crate::text::str_eq(e.locale.as_str(), locale) {
            let eid = root.child("effect", i as u64);
            proof {
                assert(eid.deep_view() =~= item_effect_id(dv.id, i as int));
            }
            em.anon_obj(&subject, Ns::Poke, "hasEffect", &eid);
            let eref = EntityRef::Anonymous(eid);
            em.lit_text(&eref, Ns::Schema, "description", e.effect.as_str());
            em.lit_text(&eref, Ns::Poke, "shortEffect", e.short_effect.as_str());
        }
        proof {
            let ev = d.effect_entries.deep_view();
            assert(ev.take(i + 1 as int) =~= ev.take(i as int).push(ev[i as int]));
            lemma_flat_map_idx_snoc(ev.take(i as int), 0, ev[i as int], es);
            lemma_concat_assoc(head, flat_map_idx(ev.take(i as int), 0, es),
                es(i as int, ev[i as int]));
            if em.ok() {
                let a = item_effect_id(dv.id, i as int);
                if ev[i as int].locale == locale@ {
                    assert(em.out_view() =~= pre_out + seq![
                        anon_st(s, pred_iri(Ns::Poke, "hasEffect"@), a),
                        text_st(RefV::Anonymous(a), pred_iri(Ns::Schema, "description"@),
                            ev[i as int].effect),
                        text_st(RefV::Anonymous(a), pred_iri(Ns::Poke, "shortEffect"@),
                            ev[i as int].short_effect),
                    ]);
                } else {
                    assert(em.out_view() =~= pre_out + es(i as int, ev[i as int]));
                }
                assert(em.out_view() =~= head + flat_map_idx(ev.take(i + 1 as int), 0, es));
            }
        }
        i = i + 1;
    }
    let ghost out1 = head + flat_map_idx(dv.effect_entries, 0, es);
    proof {
        assert(d.effect_entries.deep_view().take(n1 as int) =~= d.effect_entries.deep_view());
    }
    em.texts(&subject, Ns::Poke, "hasFlavorText", &d.flavor_texts, locale);
    let ghost out2 = out1 + loc_texts(s, pred_iri(Ns::Poke, "hasFlavorText"@), dv.flavor_texts,
        locale@);

    let ghost gu = |g: GameIndexV| seq![g.url];
    let ghost gs = |i: int, g: GameIndexV| item_game_index_sts(s, dv.id, i, g);
    let n2 = d.game_indices.len();
    let mut j: usize = 0;
    while j < n2
        invariant
            em.wf(),
            n2 == d.game_indices.len(),
            j <= n2,
            em.urls_view() == head_urls
                + flat_map_of(d.game_indices.deep_view().take(j as int), gu),
            em.ok() ==> em.out_view() == out2
                + flat_map_idx(d.game_indices.deep_view().take(j as int), 0, gs),
        decreases n2 - j,
    {
        let ghost pre_urls = em.urls_view();
        let ghost pre_out = em.out_view();
        let g = &d.game_indices[j];
        let gid = root.child("gameIndex", j as u64);
        proof {
            assert(gid.deep_view() =~= item_game_index_id(dv.id, j as int));
        }
        em.anon_obj(&subject, Ns::Poke, "gameIndex", &gid);
        let gref = EntityRef::Anonymous(gid);
        em.lit_int(&gref, Ns::Poke, "index", g.game_index);
        em.link(&gref, Ns::Poke, "generation", g.url.as_str());
        proof {
            let gv = d.game_indices.deep_view();
            assert(gv.take(j + 1 as int) =~= gv.take(j as int).push(gv[j as int]));
            lemma_flat_map_snoc(gv.take(j as int), gv[j as int], gu);
            lemma_concat_assoc(head_urls, flat_map_of(gv.take(j as int), gu), gu(gv[j as int]));
            assert(pre_urls + seq![dv.game_indices[j as int].url] =~= pre_urls
                + gu(gv[j as int]));
            assert(em.urls_view() =~= head_urls + flat_map_of(gv.take(j + 1 as int), gu));
            if em.ok() {
                lemma_flat_map_idx_snoc(gv.take(j as int), 0, gv[j as int], gs);
                lemma_concat_assoc(out2, flat_map_idx(gv.take(j as int), 0, gs),
                    gs(j as int, gv[j as int]));
                let a = item_game_index_id(dv.id, j as int);
                assert(em.out_view() =~= pre_out + seq![
                    anon_st(s, pred_iri(Ns::Poke, "gameIndex"@), a),
                    int_st(RefV::Anonymous(a), pred_iri(Ns::Poke, "index"@),
                        gv[j as int].game_index),
                    link_st(RefV::Anonymous(a), pred_iri(Ns::Poke, "generation"@),
                        gv[j as int].url),
                ]);
                assert(em.out_view() =~= out2 + flat_map_idx(gv.take(j + 1 as int), 0, gs));
            }
        }
        j = j + 1;
    }
    let ghost urls2 = head_urls + flat_map_of(dv.game_indices, gu);
    let ghost out3 = out2 + flat_map_idx(dv.game_indices, 0, gs);
    proof {
        assert(d.game_indices.deep_view().take(n2 as int) =~= d.game_indices.deep_view());
    }
    em.texts(&subject, Ns::Poke, "names", &d.names, locale);
    em.opt_link(&subject, Ns::Poke, "defaultSprite", &d.sprite_url);
    let ghost urls3 = urls2 + opt_url(dv.sprite_url);
    let ghost out4 = out3 + loc_texts(s, pred_iri(Ns::Poke, "names"@), dv.names, locale@)
        + opt_link_sts(s, pred_iri(Ns::Poke, "defaultSprite"@), dv.sprite_url);

    let ghost hu = |h: HeldByV| seq![h.pokemon_url]
        + flat_map_of(h.version_details, |v: HeldVersionDetailV| seq![v.version_url]);
    let ghost hs = |i: int, h: HeldByV| item_held_sts(s, dv.id, i, h);
    let n3 = d.held_by.len();
    let mut k: usize = 0;
    while k < n3
        invariant
            em.wf(),
            n3 == d.held_by.len(),
            k <= n3,
            em.urls_view() == urls3 + flat_map_of(d.held_by.deep_view().take(k as int), hu),
            em.ok() ==> em.out_view() == out4
                + flat_map_idx(d.held_by.deep_view().take(k as int), 0, hs),
        decreases n3 - k,
    {
        let ghost pre_urls = em.urls_view();
        let ghost pre_out = em.out_view();
        let h = &d.held_by[k];
        let hid = root.child("heldByPokemon", k as u64);
        proof {
            assert(hid.deep_view() =~= item_held_id(dv.id, k as int));
        }
        em.anon_obj(&subject, Ns::Poke, "heldByPokemon", &hid);
        let href = EntityRef::Anonymous(hid);
        em.link(&href, Ns::Poke, "pokemon", h.pokemon_url.as_str());
        let ghost hv = d.held_by.deep_view()[k as int];
        let ghost a = item_held_id(dv.id, k as int);
        let ghost fixed = seq![
            anon_st(s, pred_iri(Ns::Poke, "heldByPokemon"@), a),
            link_st(RefV::Anonymous(a), pred_iri(Ns::Poke, "pokemon"@), hv.pokemon_url),
        ];
        let ghost vu = |v: HeldVersionDetailV| seq![v.version_url];
        let ghost vs = |jj: int, v: HeldVersionDetailV| item_held_vd_sts(s, dv.id, k as int,
            jj, v);
        proof {
            assert(em.urls_view() =~= pre_urls + seq![hv.pokemon_url]);
            if em.ok() {
                assert(em.out_view() =~= pre_out + fixed);
            }
        }
        let ghost inner_urls_base = pre_urls + seq![hv.pokemon_url];
        let ghost entry_ok = em.ok();
        let m = h.version_details.len();
        let mut jj: usize = 0;
        while jj < m
            invariant
                em.wf(),
                em.ok() ==> entry_ok,
                m == h.version_details.len(),
                jj <= m,
                em.urls_view() == inner_urls_base
                    + flat_map_of(h.version_details.deep_view().take(jj as int), vu),
                em.ok() ==> em.out_view() == pre_out + fixed
                    + flat_map_idx(h.version_details.deep_view().take(jj as int), 0, vs),
            decreases m - jj,
        {
            let ghost p_urls = em.urls_view();
            let ghost p_out = em.out_view();
            let v = &h.version_details[jj];
            let vid = hid_child(&root, k, jj);
            proof {
                assert(vid.deep_view() =~= a.push(
                    AnonSegV { word: "versionDetail"@, num: jj as nat }));
            }
            em.anon_obj(&href, Ns::Poke, "versionDetail", &vid);
            let vref = EntityRef::Anonymous(vid);
            em.lit_int(&vref, Ns::Poke, "rarity", v.rarity);
            em.link(&vref, Ns::Poke, "version", v.version_url.as_str());
            proof {
                let vv = h.version_details.deep_view();
                assert(vv.take(jj + 1 as int) =~= vv.take(jj as int).push(vv[jj as int]));
                lemma_flat_map_snoc(vv.take(jj as int), vv[jj as int], vu);
                lemma_concat_assoc(inner_urls_base, flat_map_of(vv.take(jj as int), vu),
                    vu(vv[jj as int]));
                assert(p_urls + seq![hv.version_details[jj as int].version_url] =~= p_urls
                    + vu(vv[jj as int]));
                assert(em.urls_view() =~= inner_urls_base
                    + flat_map_of(vv.take(jj + 1 as int), vu));
                if em.ok() {
                    lemma_flat_map_idx_snoc(vv.take(jj as int), 0, vv[jj as int], vs);
                    lemma_concat_assoc(pre_out + fixed,
                        flat_map_idx(vv.take(jj as int), 0, vs), vs(jj as int, vv[jj as int]));
                    let b = a.push(AnonSegV { word: "versionDetail"@, num: jj as nat });
                    assert(em.out_view() =~= p_out + seq![
                        anon_st(RefV::Anonymous(a), pred_iri(Ns::Poke, "versionDetail"@), b),
                        int_st(RefV::Anonymous(b), pred_iri(Ns::Poke, "rarity"@),
                            vv[jj as int].rarity),
                        link_st(RefV::Anonymous(b), pred_iri(Ns::Poke, "version"@),
                            vv[jj as int].version_url),
                    ]);
                    assert(em.out_view() =~= pre_out + fixed
                        + flat_map_idx(vv.take(jj + 1 as int), 0, vs));
                }
            }
            jj = jj + 1;
        }
        proof {
            let kv = d.held_by.deep_view();
            assert(h.version_details.deep_view().take(m as int)
                =~= h.version_details.deep_view());
            assert(kv.take(k + 1 as int) =~= kv.take(k as int).push(kv[k as int]));
            lemma_flat_map_snoc(kv.take(k as int), kv[k as int], hu);
            lemma_concat_assoc(urls3, flat_map_of(kv.take(k as int), hu), hu(kv[k as int]));
            assert(seq![hv.pokemon_url] + flat_map_of(hv.version_details, vu)
                =~= hu(kv[k as int]));
            lemma_concat_assoc(pre_urls, seq![hv.pokemon_url],
                flat_map_of(hv.version_details, vu));
            assert(em.urls_view() =~= urls3 + flat_map_of(kv.take(k + 1 as int), hu));
            if em.ok() {
                lemma_flat_map_idx_snoc(kv.take(k as int), 0, kv[k as int], hs);
                lemma_concat_assoc(out4, flat_map_idx(kv.take(k as int), 0, hs),
                    hs(k as int, kv[k as int]));
                lemma_concat_assoc(pre_out, fixed,
                    flat_map_idx(hv.version_details, 0, vs));
                assert(fixed + flat_map_idx(hv.version_details, 0, vs)
                    =~= hs(k as int, kv[k as int]));
                assert(em.out_view() =~= out4 + flat_map_idx(kv.take(k + 1 as int), 0, hs));
            }
        }
        k = k + 1;
    }
    proof {
        assert(d.held_by.deep_view().take(n3 as int) =~= d.held_by.deep_view());
    }
    em.opt_link(&subject, Ns::Poke, "babyTriggerFor", &d.baby_trigger_for_url);
    proof {
        assert(em.urls_view() == item_urls(url@, dv));
        if em.ok() {
            assert(em.out_view() == item_sts(url@, dv, locale@));
        }
    }
    em.finish()
}

/// The identity of the `j`-th version detail under the `k`-th holding
/// pokemon.
fn hid_child(root: &AnonId, k: usize, j: usize) -> (r: AnonId)
    requires
        root.wf(),
    ensures
        r.deep_view() == root.deep_view().push(
            AnonSegV { word: "heldByPokemon"@, num: k as nat }).push(
            AnonSegV { word: "versionDetail"@, num: j as nat }),
{
    proof {
        reveal_strlit("heldByPokemon");
        reveal_strlit("versionDetail");
        assert(wf_word("heldByPokemon"@));
        assert(wf_word("versionDetail"@));
    }
    let h = root.child("heldByPokemon", k as u64);
    h.child("versionDetail", j as u64)
}

} // verus!
