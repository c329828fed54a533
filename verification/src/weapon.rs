//! The weapon draw page: a few weapons picked at random from the weapon list.

use vstd::prelude::*;
use crate::data::{EmbedQuery, HtmlResponse};
use crate::helper::{escape_html, escape_seq, SITE_URL};
use crate::rgb::{Rgb, hex_colour, colour_from_bytes, lemma_hex_colour_escaped};
use vstd::utf8::encode_utf8;
use crate::template::{field, render, render_spec};
use crate::text::{join, join_spec, decimal, push_decimal, decimal_value, lemma_decimal_denotes};

verus! {

/// A weapon of the weapon list.
#[derive(Debug, Clone)]
pub struct WeaponInfo {
    /// The Japanese name of the weapon.
    pub name_ja_jp: String,
}

/// The colour of the weapon page when the query gives none.
pub open spec fn default_weapon_colour() -> Seq<u8> {
    seq![0xffu8, 0xffu8, 0x10u8]
}

/// The list entry of the `i`-th drawn weapon in the page description.
pub open spec fn meta_line(i: int, name: Seq<char>) -> Seq<char> {
    decimal((i + 1) as nat) + ". "@ + escape_seq(name)
}

/// The list item of a drawn weapon in the page body.
pub open spec fn body_item(name: Seq<char>) -> Seq<char> {
    "<li>"@ + escape_seq(name) + "</li>"@
}

/// The names of a list of weapons.
pub open spec fn names(weapons: Seq<WeaponInfo>) -> Seq<Seq<char>> {
    Seq::new(weapons.len(), |i: int| weapons[i].name_ja_jp@)
}

/// The fields of the weapon page template.
pub open spec fn weapon_vars(weapons: Seq<Seq<char>>, colour: Option<Rgb>) -> Seq<(Seq<char>, Seq<char>)> {
    let c = match colour {
        Some(c) => c.0@,
        None => default_weapon_colour(),
    };
    seq![
        ("SITE_URL"@, "splat.site"@),
        ("title"@, escape_seq("武器抽選"@)),
        ("w_meta"@, join_spec(Seq::new(weapons.len(), |i: int| meta_line(i, weapons[i])), "\n"@)),
        ("w_body"@, join_spec(Seq::new(weapons.len(), |i: int| body_item(weapons[i])), " "@)),
        ("colour"@, escape_seq(hex_colour(c))),
    ]
}

/// The weapon page of the drawn weapons.
pub open spec fn weapon_page(template: Seq<char>, weapons: Seq<Seq<char>>, colour: Option<Rgb>) -> Seq<char> {
    render_spec(template, weapon_vars(weapons, colour))
}

/// How many weapons a query draws: `n` (one when not given), kept between one and eight.
pub open spec fn pick_count_spec(n: Option<u32>) -> int {
    let k: int = match n {
        Some(k) => k as int,
        None => 1,
    };
    if k < 1 { 1 } else if k > 8 { 8 } else { k }
}

/// How many weapons a query draws.
pub fn pick_count(n: Option<u32>) -> (count: usize)
    ensures
        count == pick_count_spec(n),
        1 <= count <= 8,
{
    let k = match n {
        Some(k) => k,
        None => 1,
    };
    if k < 1 { 1 } else if k > 8 { 8 } else { k as usize }
}

/// Builds the weapon page of the drawn weapons from the page template.
pub fn build_html_weapon(info: &Vec<WeaponInfo>, colour: Option<Rgb>, template: &str) -> (page: String)
    requires
        info@.len() < u64::MAX,
    ensures
        page@ == weapon_page(template@, names(info@), colour),
{
    let n = info.len();
    let mut metas: Vec<String> = Vec::new();
    let mut items: Vec<String> = Vec::new();
    let mut i: usize = 0;
    while i < n
        invariant
            n == info@.len(),
            n < u64::MAX,
            i <= n,
            metas@.len() == i,
            items@.len() == i,
            forall|k: int| 0 <= k < i ==> #[trigger] metas@[k]@ == meta_line(k, info@[k].name_ja_jp@),
            forall|k: int| 0 <= k < i ==> #[trigger] items@[k]@ == body_item(info@[k].name_ja_jp@),
        decreases n - i,
    {
        let name = escape_html(info[i].name_ja_jp.as_str());
        let mut meta = String::new();
        push_decimal(&mut meta, (i + 1) as u64);
        meta.append(". ");
        meta.append(name.as_str());
        metas.push(meta);

        let mut item = String::from_str("<li>");
        item.append(name.as_str());
        item.append("</li>");
        items.push(item);
        i = i + 1;
    }
    let ghost ns = names(info@);
    assert(metas.deep_view() =~= Seq::new(ns.len(), |k: int| meta_line(k, ns[k])));
    assert(items.deep_view() =~= Seq::new(ns.len(), |k: int| body_item(ns[k])));

    let c = match colour {
        Some(c) => c,
        None => Rgb([0xff, 0xff, 0x10]),
    };
    assert(c.0@ == (match colour {
        Some(c) => c.0@,
        None => default_weapon_colour(),
    }));

    let mut vars: Vec<(String, String)> = Vec::new();
    vars.push(field("SITE_URL", String::from_str(SITE_URL)));
    vars.push(field("title", escape_html("武器抽選")));
    vars.push(field("w_meta", join(&metas, "\n")));
    vars.push(field("w_body", join(&items, " ")));
    vars.push(field("colour", escape_html(c.to_hex_string().as_str())));
    assert(vars.deep_view() =~= weapon_vars(names(info@), colour));
    render(template, &vars)
}

/// The names of the weapons at the drawn positions of the pool.
pub open spec fn picked(pool: Seq<WeaponInfo>, picks: Seq<usize>) -> Seq<Seq<char>> {
    Seq::new(picks.len(), |k: int| pool[picks[k] as int].name_ja_jp@)
}

/// The drawn positions fit the query and the pool: as many as the query
/// draws, each a position of the pool.
pub open spec fn valid_picks(pool: Seq<WeaponInfo>, picks: Seq<usize>, n: Option<u32>) -> bool {
    &&& picks.len() == pick_count_spec(n)
    &&& forall|k: int| 0 <= k < picks.len() ==> #[trigger] picks[k] < pool.len()
}

/// The weapon page for a query: the weapons at the drawn positions of the
/// weapon list, or the error text when there is no weapon list.
pub fn get_info(
    weapons: &Option<Vec<WeaponInfo>>,
    query: &EmbedQuery,
    picks: &Vec<usize>,
    template: &str,
) -> (page: String)
    requires
        weapons matches Some(pool) ==> valid_picks(pool@, picks@, query.n),
    ensures
        match weapons {
            Some(pool) => page@ == weapon_page(template@, picked(pool@, picks@), query.colour),
            None => page@ == crate::helper::error_text_spec(),
        },
{
    match weapons {
        Some(pool) => {
            let mut drawn: Vec<WeaponInfo> = Vec::new();
            let mut k: usize = 0;
            while k < picks.len()
                invariant
                    valid_picks(pool@, picks@, query.n),
                    k <= picks@.len(),
                    drawn@.len() == k,
                    forall|j: int| 0 <= j < k ==> #[trigger] drawn@[j].name_ja_jp@ == pool@[picks@[j] as int].name_ja_jp@,
                decreases picks@.len() - k,
            {
                drawn.push(WeaponInfo { name_ja_jp: pool[picks[k]].name_ja_jp.clone() });
                k = k + 1;
            }
            assert(names(drawn@) =~= picked(pool@, picks@));
            build_html_weapon(&drawn, query.colour, template)
        },
        None => crate::helper::error_text(),
    }
}

/// The answer of the weapon page: always status 200 with the page of [`get_info`].
pub fn get_weapon(
    weapons: &Option<Vec<WeaponInfo>>,
    query: &EmbedQuery,
    picks: &Vec<usize>,
    template: &str,
) -> (res: HtmlResponse)
    requires
        weapons matches Some(pool) ==> valid_picks(pool@, picks@, query.n),
    ensures
        res.status == 200,
        match weapons {
            Some(pool) => res.body@ == weapon_page(template@, picked(pool@, picks@), query.colour),
            None => res.body@ == crate::helper::error_text_spec(),
        },
{
    HtmlResponse { status: 200, body: get_info(weapons, query, picks, template) }
}

/// The description lists the drawn weapons numbered from one: the line of
/// the `k`-th weapon (counting from zero) is the number `k + 1` in decimal
/// digits without a leading zero, `. ` and the escaped name.
pub proof fn lemma_weapon_list_numbering(weapons: Seq<Seq<char>>, k: int)
    requires
        0 <= k < weapons.len(),
    ensures
        weapon_vars(weapons, None)[2].0 == "w_meta"@,
        exists|d: Seq<char>|
            #![trigger decimal_value(d)]
            {
                &&& decimal_value(d) == k + 1
                &&& d.len() >= 1
                &&& d[0] != '0'
                &&& forall|i: int| 0 <= i < d.len() ==> '0' <= #[trigger] d[i] <= '9'
                &&& meta_line(k, weapons[k]) == d + ". "@ + escape_seq(weapons[k])
            },
{
    lemma_decimal_denotes((k + 1) as nat);
    let d = decimal((k + 1) as nat);
    assert(decimal_value(d) == k + 1);
}

/// A query draws the `n` it gives when that is between one and eight, one
/// weapon when it gives none or zero, and eight when it gives more.
pub proof fn lemma_pick_count(n: Option<u32>)
    ensures
        1 <= pick_count_spec(n) <= 8,
        n is None ==> pick_count_spec(n) == 1,
        forall|k: u32| n == Some(k) && 1 <= k <= 8 ==> pick_count_spec(n) == k,
        forall|k: u32| n == Some(k) && k > 8 ==> pick_count_spec(n) == 8,
        n == Some(0u32) ==> pick_count_spec(n) == 1,
{
}

/// The colour field of the weapon page is the query colour written `#RRGGBB`
/// (`#FFFF10` when the query gives none): seven characters, `#` first, and
/// reading its digits back gives the colour's red, green and blue in order.
pub proof fn lemma_weapon_colour_field(weapons: Seq<Seq<char>>, colour: Option<Rgb>)
    ensures
        ({
            let f = weapon_vars(weapons, colour)[4];
            &&& f.0 == "colour"@
            &&& f.1.len() == 7
            &&& f.1[0] == '#'
            &&& colour_from_bytes(encode_utf8(f.1.drop_first())) == match colour {
                Some(c) => Some((c.0[0], c.0[1], c.0[2])),
                None => Some((0xffu8, 0xffu8, 0x10u8)),
            }
        }),
{
    match colour {
        Some(c) => lemma_hex_colour_escaped(c.0@),
        None => lemma_hex_colour_escaped(default_weapon_colour()),
    }
}

} // verus!
