//! The web dashboard's rules: which of a user's guilds it lists.

use vstd::prelude::*;
use array_tool::vec::Intersect;

verus! {

/// A guild as Discord lists it among a user's guilds.
pub struct PartialGuild {
    pub id: String,
    pub name: String,
    pub icon: Option<String>,
    pub owner: bool,
    pub permissions: String,
}

/// The views of a list of strings.
pub open spec fn views(s: Seq<String>) -> Seq<Seq<char>> {
    s.map_values(|x: String| x@)
}

/// `s` with every element after its first occurrence removed.
pub open spec fn unique_in_order(s: Seq<Seq<char>>) -> Seq<Seq<char>>
    decreases s.len(),
{
    if s.len() == 0 {
        s
    } else if s.drop_last().contains(s.last()) {
        unique_in_order(s.drop_last())
    } else {
        unique_in_order(s.drop_last()).push(s.last())
    }
}

/// Removing repeats keeps every element.
pub proof fn lemma_unique_in_order_contains(s: Seq<Seq<char>>, x: Seq<char>)
    ensures
        unique_in_order(s).contains(x) <==> s.contains(x),
    decreases s.len(),
{
    if s.len() > 0 {
        lemma_unique_in_order_contains(s.drop_last(), x);
        assert(s =~= s.drop_last().push(s.last()));
        if s.contains(x) && !s.drop_last().contains(x) {
            let i = choose|i: int| 0 <= i < s.len() && s[i] == x;
            if i < s.len() - 1 {
                assert(s.drop_last()[i] == x);
            }
        }
        if s.drop_last().contains(x) {
            let i = choose|i: int| 0 <= i < s.drop_last().len() && s.drop_last()[i] == x;
            assert(s[i] == x);
        }
        if !s.drop_last().contains(s.last()) {
            let u = unique_in_order(s.drop_last());
            if u.push(s.last()).contains(x) {
                let i = choose|i: int| 0 <= i < u.push(s.last()).len() && u.push(s.last())[i] == x;
                if i < u.len() {
                    assert(u[i] == x);
                }
            }
            if u.contains(x) {
                let i = choose|i: int| 0 <= i < u.len() && u[i] == x;
                assert(u.push(s.last())[i] == x);
            }
            assert(u.push(s.last())[u.len() as int] == s.last());
        }
    }
}

/// array_tool's `Vec::intersect`: the elements of `a`, each taken once (at
/// its first occurrence, in `a`'s order), that are equal to some element of
/// `b`.
#[verifier::external_body]
fn intersect(a: &Vec<String>, b: Vec<String>) -> (r: Vec<String>)
    ensures
        views(r@) == unique_in_order(views(a@)).filter(|x: Seq<char>| views(b@).contains(x)),
{
    a.intersect(b)
}

/// Whether some string of `v` equals `s`.
fn contains_string(v: &Vec<String>, s: &String) -> (r: bool)
    ensures
        r == views(v@).contains(s@),
{
    let mut i: usize = 0;
    while i < v.len()
        invariant
            i <= v.len(),
            forall|j: int| 0 <= j < i ==> v@[j]@ != s@,
        decreases v.len() - i,
    {
        if v[i] == *s {
            assert(views(v@)[i as int] == s@);
            return true;
        }
        i = i + 1;
    }
    proof {
        if views(v@).contains(s@) {
            let k = choose|k: int| 0 <= k < views(v@).len() && views(v@)[k] == s@;
            assert(v@[k]@ == s@);
        }
    }
    false
}

/// Whether the bot is in the guild `g`.
pub open spec fn shared_with_bot(bot_guild_ids: Seq<Seq<char>>, g: PartialGuild) -> bool {
    bot_guild_ids.contains(g.id@)
}

/// The guilds of `user_guilds`, in their order, that the bot is in too: the
/// guilds the dashboard lists for a user.
pub fn mutual_guilds(user_guilds: Vec<PartialGuild>, bot_guild_ids: &Vec<String>) -> (r: Vec<PartialGuild>)
    ensures
        r@ == user_guilds@.filter(|g: PartialGuild| shared_with_bot(views(bot_guild_ids@), g)),
        forall|i: int| 0 <= i < r@.len() ==> views(bot_guild_ids@).contains(#[trigger] r@[i].id@),
        forall|i: int| 0 <= i < r@.len() ==> user_guilds@.contains(#[trigger] r@[i]),
        forall|j: int|
            0 <= j < user_guilds@.len() && views(bot_guild_ids@).contains(#[trigger] user_guilds@[j].id@)
                ==> r@.contains(user_guilds@[j]),
        r@.len() <= user_guilds@.len(),
{
    let ghost all = user_guilds@;
    let ghost pred = |g: PartialGuild| shared_with_bot(views(bot_guild_ids@), g);
    let mut user_ids: Vec<String> = Vec::new();
    let mut i: usize = 0;
    while i < user_guilds.len()
        invariant
            i <= user_guilds.len(),
            user_ids@.len() == i,
            forall|j: int| 0 <= j < i ==> #[trigger] user_ids@[j] == user_guilds@[j].id,
        decreases user_guilds.len() - i,
    {
        user_ids.push(user_guilds[i].id.clone());
        i = i + 1;
    }
    let ghost user_id_views = views(user_ids@);
    let shared = intersect(bot_guild_ids, user_ids);
    let mut result: Vec<PartialGuild> = Vec::new();
    assert(all.take(0) =~= Seq::<PartialGuild>::empty());
    for g in it: user_guilds
        invariant
            it.seq() == all,
            user_id_views.len() == all.len(),
            forall|j: int| 0 <= j < all.len() ==> #[trigger] user_id_views[j] == all[j].id@,
            views(shared@) == unique_in_order(views(bot_guild_ids@)).filter(
                |x: Seq<char>| user_id_views.contains(x),
            ),
            pred == (|g: PartialGuild| shared_with_bot(views(bot_guild_ids@), g)),
            result@ == all.take(it.index() as int).filter(pred),
    {
        let ghost k = it.index() as int;
        let keep = contains_string(&shared, &g.id);
        proof {
            assert(g == all[k]);
            assert(user_id_views[k] == g.id@);
            assert(user_id_views.contains(g.id@));
            let f = |x: Seq<char>| user_id_views.contains(x);
            let u = unique_in_order(views(bot_guild_ids@));
            lemma_unique_in_order_contains(views(bot_guild_ids@), g.id@);
            if keep {
                u.lemma_filter_contains_rev(f, g.id@);
            } else if u.contains(g.id@) {
                let i = choose|i: int| 0 <= i < u.len() && u[i] == g.id@;
                u.lemma_filter_contains(f, i);
            }
            assert(keep == pred(g));
            assert(all.take(k + 1) =~= all.take(k).push(g));
            all.take(k).lemma_filter_push(g, pred);
        }
        if keep {
            result.push(g);
        }
    }
    assert(all.take(all.len() as int) =~= all);
    proof {
        all.lemma_filter_len(pred);
        assert forall|i: int| 0 <= i < result@.len() implies views(bot_guild_ids@).contains(
            #[trigger] result@[i].id@,
        ) && all.contains(result@[i]) by {
            all.lemma_filter_pred(pred, i);
            all.lemma_filter_contains_rev(pred, result@[i]);
        }
        assert forall|j: int|
            0 <= j < all.len() && views(bot_guild_ids@).contains(#[trigger] all[j].id@) implies result@.contains(
            all[j],
        ) by {
            assert(pred(all[j]));
            all.lemma_filter_contains(pred, j);
        }
    }
    result
}

} // verus!
