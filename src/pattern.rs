use vstd::prelude::*;

verus! {

/// The pattern that every LVM2 resource name matches.
pub const NAME_PATTERN: &'static str = "^[a-zA-Z0-9+_.\\-]+$";

/// The pattern that every LVM2 resource UUID matches.
pub const UUID_PATTERN: &'static str = "^[a-zA-Z0-9]{6}-([a-zA-Z0-9]{4}-){5}[a-zA-Z0-9]{6}$";

/// An ASCII letter or digit.
pub open spec fn is_alphanumeric(c: char) -> bool {
    ('a' <= c && c <= 'z') || ('A' <= c && c <= 'Z') || ('0' <= c && c <= '9')
}

/// A character allowed in a resource name.
pub open spec fn is_name_char(c: char) -> bool {
    is_alphanumeric(c) || c == '+' || c == '_' || c == '.' || c == '-'
}

/// The language of [NAME_PATTERN]: a non-empty string of name characters.
pub open spec fn is_valid_name(s: Seq<char>) -> bool {
    s.len() > 0 && forall|i: int| 0 <= i < s.len() ==> is_name_char(#[trigger] s[i])
}

/// The positions of the hyphens in a UUID: after groups of 6, 4, 4, 4, 4 and 4 characters.
pub open spec fn is_uuid_hyphen_position(i: int) -> bool {
    i == 6 || i == 11 || i == 16 || i == 21 || i == 26 || i == 31
}

/// The language of [UUID_PATTERN]: groups of 6, 4, 4, 4, 4, 4 and 6 letters or digits
/// joined by hyphens.
pub open spec fn is_valid_uuid(s: Seq<char>) -> bool {
    s.len() == 38 && forall|i: int|
        0 <= i < 38 ==> if is_uuid_hyphen_position(i) {
            #[trigger] s[i] == '-'
        } else {
            is_alphanumeric(s[i])
        }
}

/// Groups of characters joined by hyphens.
pub open spec fn join_groups(g: Seq<Seq<char>>) -> Seq<char>
    decreases g.len(),
{
    if g.len() == 0 {
        Seq::empty()
    } else if g.len() == 1 {
        g[0]
    } else {
        g[0] + seq!['-'] + join_groups(g.drop_first())
    }
}

/// The lengths of the groups of a UUID.
pub open spec fn uuid_group_lengths() -> Seq<int> {
    seq![6, 4, 4, 4, 4, 4, 6]
}

/// Whether `s`, from `start` on, is groups of letters and digits of the lengths `lens`,
/// joined by hyphens.
pub open spec fn groups_at(s: Seq<char>, start: int, lens: Seq<int>) -> bool
    decreases lens.len(),
{
    if lens.len() == 0 {
        false
    } else {
        let end = start + lens[0];
        &&& 0 <= start <= end <= s.len()
        &&& forall|i: int| start <= i < end ==> is_alphanumeric(#[trigger] s[i])
        &&& if lens.len() == 1 {
            s.len() == end
        } else {
            end < s.len() && s[end] == '-' && groups_at(s, end + 1, lens.drop_first())
        }
    }
}

proof fn lemma_valid_uuid_groups(s: Seq<char>)
    requires
        is_valid_uuid(s),
    ensures
        groups_at(s, 0, uuid_group_lengths()),
{
    let l = uuid_group_lengths();
    assert(l.drop_first() =~= seq![4, 4, 4, 4, 4, 6]);
    assert(l.drop_first().drop_first() =~= seq![4, 4, 4, 4, 6]);
    assert(l.drop_first().drop_first().drop_first() =~= seq![4, 4, 4, 6]);
    assert(l.drop_first().drop_first().drop_first().drop_first() =~= seq![4, 4, 6]);
    assert(l.drop_first().drop_first().drop_first().drop_first().drop_first() =~= seq![4, 6]);
    assert(l.drop_first().drop_first().drop_first().drop_first().drop_first().drop_first()
        =~= seq![6]);
    assert(s[6] == '-' && s[11] == '-' && s[16] == '-' && s[21] == '-' && s[26] == '-' && s[31]
        == '-');
    assert(groups_at(s, 32, seq![6]));
    assert(groups_at(s, 27, seq![4, 6]));
    assert(groups_at(s, 22, seq![4, 4, 6]));
    assert(groups_at(s, 17, seq![4, 4, 4, 6]));
    assert(groups_at(s, 12, seq![4, 4, 4, 4, 6]));
    assert(groups_at(s, 7, seq![4, 4, 4, 4, 4, 6]));
}

proof fn lemma_groups_lengths(s: Seq<char>, start: int, g: Seq<Seq<char>>, lens: Seq<int>)
    requires
        0 <= start <= s.len(),
        s.subrange(start, s.len() as int) == join_groups(g),
        g.len() == lens.len(),
        forall|i: int, j: int|
            0 <= i < g.len() && 0 <= j < g[i].len() ==> is_alphanumeric(#[trigger] g[i][j]),
        groups_at(s, start, lens),
    ensures
        forall|i: int| 0 <= i < g.len() ==> (#[trigger] g[i]).len() == lens[i],
    decreases g.len(),
{
    let t = s.subrange(start, s.len() as int);
    if g.len() == 1 {
        assert(t == g[0]);
    } else if g.len() > 1 {
        let a = g[0].len() as int;
        let end = start + lens[0];
        assert(t == g[0] + seq!['-'] + join_groups(g.drop_first()));
        assert(s[start + a] == t[a]);
        assert(t[a] == '-');
        if lens[0] < a {
            assert(s[end] == t[lens[0]]);
            assert(t[lens[0]] == g[0][lens[0]]);
            assert(is_alphanumeric(g[0][lens[0]]));
        }
        if lens[0] > a {
            assert(start <= start + a < end);
            assert(is_alphanumeric(s[start + a]));
        }
        assert(lens[0] == a);
        let rest = join_groups(g.drop_first());
        assert(t.len() == a + 1 + rest.len());
        assert(t.subrange(a + 1, t.len() as int) =~= rest);
        assert(s.subrange(end + 1, s.len() as int) =~= t.subrange(a + 1, t.len() as int));
        assert forall|i: int, j: int|
            0 <= i < g.drop_first().len() && 0 <= j < g.drop_first()[i].len()
            implies is_alphanumeric(#[trigger] g.drop_first()[i][j]) by {
            assert(g.drop_first()[i] == g[i + 1]);
        }
        lemma_groups_lengths(s, end + 1, g.drop_first(), lens.drop_first());
        assert forall|i: int| 0 <= i < g.len() implies (#[trigger] g[i]).len() == lens[i] by {
            if i > 0 {
                assert(g[i] == g.drop_first()[i - 1]);
            }
        }
    }
}

/// A UUID is seven groups of letters and digits joined by hyphens: where any of the seven
/// groups has another length than 6, 4, 4, 4, 4, 4 and 6, the joined text is no valid UUID.
pub proof fn lemma_uuid_group_lengths(g: Seq<Seq<char>>)
    requires
        g.len() == 7,
        forall|i: int, j: int|
            0 <= i < 7 && 0 <= j < g[i].len() ==> is_alphanumeric(#[trigger] g[i][j]),
    ensures
        is_valid_uuid(join_groups(g)) ==> forall|i: int|
            0 <= i < 7 ==> (#[trigger] g[i]).len() == uuid_group_lengths()[i],
{
    let s = join_groups(g);
    if is_valid_uuid(s) {
        lemma_valid_uuid_groups(s);
        assert(s.subrange(0, s.len() as int) =~= s);
        lemma_groups_lengths(s, 0, g, uuid_group_lengths());
    }
}

/// Relies on regex::Regex::new, which compiles both patterns of this module, and on
/// regex::Regex::is_match, which says whether the text matches the anchored pattern.
#[verifier::external_body]
pub(crate) fn regex_is_match(pattern: &str, text: &str) -> (r: bool)
    requires
        pattern@ == NAME_PATTERN@ || pattern@ == UUID_PATTERN@,
    ensures
        pattern@ == NAME_PATTERN@ ==> r == is_valid_name(text@),
        pattern@ == UUID_PATTERN@ ==> r == is_valid_uuid(text@),
{
    match regex::Regex::new(pattern) {
        Ok(re) => re.is_match(text),
        Err(_) => false,
    }
}

} // verus!
