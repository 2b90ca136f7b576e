//! The call tree that recorded spans make, and how its labels are made safe
//! for a Mermaid flowchart.

use vstd::prelude::*;
use vstd::string::StringExecFns;

verus! {

/// How several calls of one function are grouped in the diagram.
#[derive(Clone, Copy, Debug, PartialEq, Eq, Structural)]
pub enum GroupingMode {
    /// Each call gets a subgraph of its own.
    UniquePerCall,
    /// Calls of the same function share one subgraph.
    MergeByName,
}

/// How the parameters of a call are drawn.
#[derive(Clone, Copy, Debug, PartialEq, Eq, Structural)]
pub enum ParamRenderMode {
    /// Each parameter is a node of its own inside a subgraph.
    PerFieldSubgraph,
    /// One node for each call lists all its parameters.
    SingleNode,
    /// As `SingleNode`, with the nodes collected in one shared subgraph.
    SingleNodeGrouped,
}

/// One call in the tree: the span of one function.
#[derive(Debug)]
pub struct CallNode {
    pub name: String,
    /// The recorded fields, as key and rendered value.
    pub fields: Vec<(String, String)>,
    pub children: Vec<CallNode>,
}

impl CallNode {
    /// A call of `name` with no fields and no children yet.
    pub fn new(name: String) -> (r: Self)
        ensures
            r@ == (CallNodeView { name: name@, fields: Seq::empty(), children: Seq::empty() }),
    {
        let r = Self { name, fields: Vec::new(), children: Vec::new() };
        assert(view_fields(r.fields@) =~= Seq::empty());
        assert(view_nodes(r.children@) =~= Seq::empty());
        r
    }
}

/// What stands for the character `c` in a label: an HTML entity for a
/// character that Mermaid gives a meaning to, the character itself
/// otherwise.
pub open spec fn escaped_char(c: char) -> Seq<char> {
    if c == '&' {
        "&amp;"@
    } else if c == '<' {
        "&lt;"@
    } else if c == '>' {
        "&gt;"@
    } else if c == '"' {
        "&quot;"@
    } else if c == '\'' {
        "&#39;"@
    } else if c == '{' {
        "&#123;"@
    } else if c == '}' {
        "&#125;"@
    } else if c == '[' {
        "&#91;"@
    } else if c == ']' {
        "&#93;"@
    } else if c == '|' {
        "&#124;"@
    } else {
        seq![c]
    }
}

/// The first `n` characters of `s`, each escaped.
pub open spec fn escaped(s: Seq<char>, n: int) -> Seq<char>
    decreases n,
{
    if n <= 0 || n > s.len() {
        Seq::empty()
    } else {
        escaped(s, n - 1) + escaped_char(s[n - 1])
    }
}

/// Escapes a string for a Mermaid label: every character that Mermaid gives
/// a meaning to becomes an HTML entity, every other character stays.
pub fn escape_mermaid(input: &str) -> (r: String)
    ensures
        r@ == escaped(input@, input@.len() as int),
{
    let n = input.unicode_len();
    let mut out = String::new();
    let mut i: usize = 0;
    while i < n
        invariant
            i <= n,
            n == input@.len(),
            out@ == escaped(input@, i as int),
        decreases n - i,
    {
        let c = input.get_char(i);
        if c == '&' {
            out.append("&amp;");
        } else if c == '<' {
            out.append("&lt;");
        } else if c == '>' {
            out.append("&gt;");
        } else if c == '"' {
            out.append("&quot;");
        } else if c == '\'' {
            out.append("&#39;");
        } else if c == '{' {
            out.append("&#123;");
        } else if c == '}' {
            out.append("&#125;");
        } else if c == '[' {
            out.append("&#91;");
        } else if c == ']' {
            out.append("&#93;");
        } else if c == '|' {
            out.append("&#124;");
        } else {
            let one = input.substring_char(i, i + 1);
            assert(one@ =~= seq![c]);
            out.append(one);
        }
        i += 1;
    }
    out
}

/// The mathematical value of a call.
pub ghost struct CallNodeView {
    pub name: Seq<char>,
    pub fields: Seq<(Seq<char>, Seq<char>)>,
    pub children: Seq<CallNodeView>,
}

/// The value of each field: key and rendered value.
pub open spec fn view_fields(fields: Seq<(String, String)>) -> Seq<(Seq<char>, Seq<char>)> {
    Seq::new(fields.len(), |i: int| (fields[i].0@, fields[i].1@))
}

/// The value of a call.
pub open spec fn view_node(n: CallNode) -> CallNodeView
    decreases n,
{
    CallNodeView {
        name: n.name@,
        fields: view_fields(n.fields@),
        children: view_nodes(n.children@),
    }
}

/// The value of each call of a sequence.
pub open spec fn view_nodes(s: Seq<CallNode>) -> Seq<CallNodeView>
    decreases s,
{
    Seq::new(
        s.len(),
        |i: int|
            if 0 <= i < s.len() {
                view_node(s[i])
            } else {
                CallNodeView { name: Seq::empty(), fields: Seq::empty(), children: Seq::empty() }
            },
    )
}

impl View for CallNode {
    type V = CallNodeView;

    open spec fn view(&self) -> CallNodeView {
        view_node(*self)
    }
}

impl CallNode {
    /// Makes `child` the last child of this call.
    pub fn add_child(&mut self, child: CallNode)
        ensures
            final(self)@ == (CallNodeView {
                children: old(self)@.children.push(child@),
                ..old(self)@
            }),
    {
        let ghost before = self.children@;
        self.children.push(child);
        assert(view_nodes(self.children@) =~= view_nodes(before).push(child@));
    }

    /// Records a field of this call: the key as it is, and the value as
    /// [`clean_field_value`] makes it from its raw rendering.
    pub fn record_field(&mut self, key: String, raw: &str)
        ensures
            final(self)@ == (CallNodeView {
                fields: old(self)@.fields.push((key@, cleaned(raw@))),
                ..old(self)@
            }),
    {
        let ghost before = self.fields@;
        let value = clean_field_value(raw);
        self.fields.push((key, value));
        assert(view_fields(self.fields@) =~= view_fields(before).push((key@, cleaned(raw@))));
    }
}

/// How many `"` stand at the start of `s`, from `i` on.
pub open spec fn leading_quotes(s: Seq<char>, i: int) -> int
    decreases s.len() - i,
{
    if 0 <= i < s.len() && s[i] == '"' {
        1 + leading_quotes(s, i + 1)
    } else {
        0
    }
}

/// How many `"` stand at the end of the first `n` characters of `s`.
pub open spec fn trailing_quotes(s: Seq<char>, n: int) -> int
    decreases n,
{
    if 0 < n <= s.len() && s[n - 1] == '"' {
        1 + trailing_quotes(s, n - 1)
    } else {
        0
    }
}

/// `s` without the `"` at its start and at its end.
pub open spec fn unquoted(s: Seq<char>) -> Seq<char> {
    let a = leading_quotes(s, 0);
    let b = trailing_quotes(s, s.len() as int);
    if a + b >= s.len() {
        Seq::empty()
    } else {
        s.subrange(a, s.len() - b)
    }
}

/// The value of a field as the diagram shows it: where the raw rendering
/// begins and ends with `"`, the quotes at both ends are taken off; what is
/// left is escaped.
pub open spec fn cleaned(raw: Seq<char>) -> Seq<char> {
    let clean = if raw.len() > 0 && raw[0] == '"' && raw[raw.len() - 1] == '"' {
        unquoted(raw)
    } else {
        raw
    };
    escaped(clean, clean.len() as int)
}

/// The count of leading quotes lies inside the string.
proof fn lemma_leading(s: Seq<char>, i: int)
    requires
        0 <= i <= s.len(),
    ensures
        0 <= leading_quotes(s, i) <= s.len() - i,
    decreases s.len() - i,
{
    if i < s.len() && s[i] == '"' {
        lemma_leading(s, i + 1);
    }
}

/// The count of trailing quotes lies inside the string.
proof fn lemma_trailing(s: Seq<char>, n: int)
    requires
        0 <= n <= s.len(),
    ensures
        0 <= trailing_quotes(s, n) <= n,
    decreases n,
{
    if n > 0 && s[n - 1] == '"' {
        lemma_trailing(s, n - 1);
    }
}

/// Makes the value of a field from its raw rendering.
pub fn clean_field_value(raw: &str) -> (r: String)
    ensures
        r@ == cleaned(raw@),
{
    let n = raw.unicode_len();
    if n > 0 && raw.get_char(0) == '"' && raw.get_char(n - 1) == '"' {
        let mut a: usize = 0;
        while a < n && raw.get_char(a) == '"'
            invariant
                a <= n,
                n == raw@.len(),
                leading_quotes(raw@, 0) == a + leading_quotes(raw@, a as int),
            decreases n - a,
        {
            a += 1;
        }
        let mut b: usize = n;
        while b > 0 && raw.get_char(b - 1) == '"'
            invariant
                b <= n,
                n == raw@.len(),
                trailing_quotes(raw@, n as int) == (n - b) + trailing_quotes(raw@, b as int),
            decreases b,
        {
            b -= 1;
        }
        if a >= b {
            proof {
                lemma_leading(raw@, 0);
                lemma_trailing(raw@, n as int);
            }
            let empty = String::new();
            assert(empty@ =~= unquoted(raw@));
            escape_mermaid(empty.as_str())
        } else {
            let clean = raw.substring_char(a, b);
            escape_mermaid(clean)
        }
    } else {
        escape_mermaid(raw)
    }
}

/// The character of a decimal digit.
pub open spec fn digit(d: nat) -> char {
    if d == 0 {
        '0'
    } else if d == 1 {
        '1'
    } else if d == 2 {
        '2'
    } else if d == 3 {
        '3'
    } else if d == 4 {
        '4'
    } else if d == 5 {
        '5'
    } else if d == 6 {
        '6'
    } else if d == 7 {
        '7'
    } else if d == 8 {
        '8'
    } else {
        '9'
    }
}

/// The decimal digits of `n`, without leading zeros.
pub open spec fn decimal(n: nat) -> Seq<char>
    decreases n,
{
    if n < 10 {
        seq![digit(n)]
    } else {
        decimal(n / 10) + seq![digit(n % 10)]
    }
}

/// The text of a decimal digit.
fn digit_text(d: usize) -> (r: &'static str)
    requires
        d < 10,
    ensures
        r@ == seq![digit(d as nat)],
{
    proof {
        reveal_strlit("0");
        reveal_strlit("1");
        reveal_strlit("2");
        reveal_strlit("3");
        reveal_strlit("4");
        reveal_strlit("5");
        reveal_strlit("6");
        reveal_strlit("7");
        reveal_strlit("8");
        reveal_strlit("9");
    }
    let r = if d == 0 {
        "0"
    } else if d == 1 {
        "1"
    } else if d == 2 {
        "2"
    } else if d == 3 {
        "3"
    } else if d == 4 {
        "4"
    } else if d == 5 {
        "5"
    } else if d == 6 {
        "6"
    } else if d == 7 {
        "7"
    } else if d == 8 {
        "8"
    } else {
        "9"
    };
    assert(r@ =~= seq![digit(d as nat)]);
    r
}

/// Writes `n` in decimal digits.
pub fn decimal_string(n: usize) -> (r: String)
    ensures
        r@ == decimal(n as nat),
    decreases n,
{
    if n < 10 {
        String::from_str(digit_text(n))
    } else {
        let mut r = decimal_string(n / 10);
        r.append(digit_text(n % 10));
        r
    }
}

/// The next value of a counter; a counter that has reached the largest
/// value of its type stays there.
pub open spec fn next(c: nat) -> nat {
    if c < usize::MAX {
        c + 1
    } else {
        c
    }
}

/// The next value of a counter.
fn advance(c: usize) -> (r: usize)
    ensures
        r == next(c as nat),
{
    if c < usize::MAX {
        c + 1
    } else {
        c
    }
}

/// Whether `a` comes before `b` in the order of strings: at the first
/// place where they differ `a` has the smaller character, or `a` ends
/// there and `b` does not.
pub open spec fn text_less(a: Seq<char>, b: Seq<char>, i: int) -> bool
    decreases a.len() - i,
{
    if i < 0 || i >= b.len() {
        false
    } else if i >= a.len() {
        true
    } else if a[i] != b[i] {
        (a[i] as int) < (b[i] as int)
    } else {
        text_less(a, b, i + 1)
    }
}

/// Whether `a` comes before `b` in the order of strings.
fn is_less(a: &str, b: &str) -> (r: bool)
    ensures
        r == text_less(a@, b@, 0),
{
    let n = a.unicode_len();
    let m = b.unicode_len();
    let mut i: usize = 0;
    while i < n && i < m
        invariant
            i <= n,
            i <= m,
            n == a@.len(),
            m == b@.len(),
            text_less(a@, b@, 0) == text_less(a@, b@, i as int),
        decreases n - i,
    {
        let x = a.get_char(i);
        let y = b.get_char(i);
        if x != y {
            return (x as u32) < (y as u32);
        }
        i += 1;
    }
    i < m
}

/// The children of one name, by their positions among all children.
#[derive(Debug)]
pub struct NameGroup {
    pub name: String,
    pub members: Vec<usize>,
}

pub ghost struct NameGroupView {
    pub name: Seq<char>,
    pub members: Seq<int>,
}

impl View for NameGroup {
    type V = NameGroupView;

    open spec fn view(&self) -> NameGroupView {
        NameGroupView { name: self.name@, members: self.members@.map_values(|m: usize| m as int) }
    }
}

/// The view of each group.
pub open spec fn view_groups(groups: Seq<NameGroup>) -> Seq<NameGroupView> {
    Seq::new(groups.len(), |i: int| groups[i]@)
}

/// Where a group of `name` stands or belongs among `groups`, which are in
/// the order of their names: the first position from `i` on whose name does
/// not come before `name`.
pub open spec fn group_position(groups: Seq<NameGroupView>, name: Seq<char>, i: int) -> int
    decreases groups.len() - i,
{
    if i < 0 || i >= groups.len() {
        groups.len() as int
    } else if text_less(groups[i].name, name, 0) {
        group_position(groups, name, i + 1)
    } else {
        i
    }
}

/// The groups after the child at position `idx` with the given name is put
/// in: into the group of its name, or into a new group at the place that
/// keeps the groups in the order of their names.
pub open spec fn group_insert(groups: Seq<NameGroupView>, name: Seq<char>, idx: int) -> Seq<
    NameGroupView,
> {
    let j = group_position(groups, name, 0);
    if 0 <= j < groups.len() && groups[j].name == name {
        groups.update(j, NameGroupView { name, members: groups[j].members.push(idx) })
    } else if 0 <= j <= groups.len() {
        groups.insert(j, NameGroupView { name, members: seq![idx] })
    } else {
        groups
    }
}

/// The first `n` children grouped by name: the groups in the order of
/// their names, the members of a group in the order of the children.
pub open spec fn grouped(children: Seq<CallNodeView>, n: int) -> Seq<NameGroupView>
    decreases n,
{
    if n <= 0 || n > children.len() {
        Seq::empty()
    } else {
        group_insert(grouped(children, n - 1), children[n - 1].name, n - 1)
    }
}

/// Whether the groups stand in the order of their names, each name once,
/// and the members of each group are positions below `n` in rising order.
pub open spec fn groups_in_order(groups: Seq<NameGroupView>, n: int) -> bool {
    &&& forall|a: int, b: int|
        0 <= a < b < groups.len() ==> text_less(
            (#[trigger] groups[a]).name,
            (#[trigger] groups[b]).name,
            0,
        )
    &&& forall|g: int, i: int|
        0 <= g < groups.len() && 0 <= i < groups[g].members.len() ==> 0 <= (
        #[trigger] groups[g].members[i]) < n
    &&& forall|g: int, i: int, j: int|
        0 <= g < groups.len() && 0 <= i < j < groups[g].members.len() ==> (
        #[trigger] groups[g].members[i]) < (#[trigger] groups[g].members[j])
}

/// Of two strings that agree before `i` and differ, one comes before the
/// other.
proof fn lemma_text_total(a: Seq<char>, b: Seq<char>, i: int)
    requires
        0 <= i <= a.len(),
        i <= b.len(),
        forall|k: int| 0 <= k < i ==> a[k] == b[k],
        a != b,
    ensures
        text_less(a, b, i) || text_less(b, a, i),
    decreases a.len() - i,
{
    if i < a.len() && i < b.len() {
        if a[i] == b[i] {
            lemma_text_total(a, b, i + 1);
        }
    } else if i == a.len() && i == b.len() {
        assert(a =~= b);
    }
}

/// The order of strings is transitive.
proof fn lemma_text_transitive(a: Seq<char>, b: Seq<char>, c: Seq<char>, i: int)
    requires
        0 <= i,
        text_less(a, b, i),
        text_less(b, c, i),
    ensures
        text_less(a, c, i),
    decreases b.len() - i,
{
    if i < a.len() && i < b.len() && i < c.len() {
        if a[i] == b[i] && b[i] == c[i] {
            lemma_text_transitive(a, b, c, i + 1);
        }
    }
}

/// Every group before the position of a name has a name that comes before
/// it, and the group at the position has none that does.
proof fn lemma_position_splits(groups: Seq<NameGroupView>, name: Seq<char>, i: int)
    requires
        0 <= i <= groups.len(),
    ensures
        forall|k: int|
            i <= k < group_position(groups, name, i) ==> text_less(
                (#[trigger] groups[k]).name,
                name,
                0,
            ),
        group_position(groups, name, i) < groups.len() ==> !text_less(
            groups[group_position(groups, name, i)].name,
            name,
            0,
        ),
    decreases groups.len() - i,
{
    if i < groups.len() && text_less(groups[i].name, name, 0) {
        lemma_position_splits(groups, name, i + 1);
    }
}

/// Putting a child in keeps the groups in order.
#[verifier::rlimit(50)]
proof fn lemma_insert_in_order(groups: Seq<NameGroupView>, name: Seq<char>, idx: int)
    requires
        groups_in_order(groups, idx),
        0 <= idx,
    ensures
        groups_in_order(group_insert(groups, name, idx), idx + 1),
{
    let j = group_position(groups, name, 0);
    lemma_group_position(groups, name, 0);
    lemma_position_splits(groups, name, 0);
    let after = group_insert(groups, name, idx);
    if j < groups.len() && groups[j].name == name {
        assert forall|g: int, i: int, k: int|
            0 <= g < after.len() && 0 <= i < k < after[g].members.len() implies (
        #[trigger] after[g].members[i]) < (#[trigger] after[g].members[k]) by {
            if g == j {
                if k == groups[j].members.len() {
                    assert(after[g].members[i] == groups[j].members[i]);
                } else {
                    assert(after[g].members[i] == groups[j].members[i]);
                    assert(after[g].members[k] == groups[j].members[k]);
                }
            } else {
                assert(after[g] == groups[g]);
            }
        }
        assert forall|g: int, i: int|
            0 <= g < after.len() && 0 <= i < after[g].members.len() implies 0 <= (
        #[trigger] after[g].members[i]) < idx + 1 by {
            if g == j {
                if i < groups[j].members.len() {
                    assert(after[g].members[i] == groups[j].members[i]);
                }
            } else {
                assert(after[g] == groups[g]);
            }
        }
        assert forall|a: int, b: int| 0 <= a < b < after.len() implies text_less(
            (#[trigger] after[a]).name,
            (#[trigger] after[b]).name,
            0,
        ) by {
            assert(after[a].name == groups[a].name);
            assert(after[b].name == groups[b].name);
        }
    } else {
        if j < groups.len() {
            lemma_text_total(groups[j].name, name, 0);
        }
        assert forall|a: int, b: int| 0 <= a < b < after.len() implies text_less(
            (#[trigger] after[a]).name,
            (#[trigger] after[b]).name,
            0,
        ) by {
            if b < j {
                assert(after[a] == groups[a] && after[b] == groups[b]);
            } else if b == j {
                assert(after[a] == groups[a]);
            } else if a < j {
                assert(after[a] == groups[a] && after[b] == groups[b - 1]);
                if b - 1 > j {
                    assert(text_less(groups[a].name, groups[b - 1].name, 0));
                } else {
                    lemma_text_transitive(groups[a].name, name, groups[j].name, 0);
                }
            } else if a == j {
                assert(after[b] == groups[b - 1]);
                if b - 1 > j {
                    assert(text_less(groups[j].name, groups[b - 1].name, 0));
                    lemma_text_transitive(name, groups[j].name, groups[b - 1].name, 0);
                }
            } else {
                assert(after[a] == groups[a - 1] && after[b] == groups[b - 1]);
            }
        }
        assert forall|g: int, i: int|
            0 <= g < after.len() && 0 <= i < after[g].members.len() implies 0 <= (
        #[trigger] after[g].members[i]) < idx + 1 by {
            if g < j {
                assert(after[g] == groups[g]);
            } else if g > j {
                assert(after[g] == groups[g - 1]);
            }
        }
        assert forall|g: int, i: int, k: int|
            0 <= g < after.len() && 0 <= i < k < after[g].members.len() implies (
        #[trigger] after[g].members[i]) < (#[trigger] after[g].members[k]) by {
            if g < j {
                assert(after[g] == groups[g]);
            } else if g > j {
                assert(after[g] == groups[g - 1]);
            }
        }
    }
}

/// What the grouping keeps of a map ordered by its keys: the groups stand
/// in the order of their names, no name occurs twice, and within a group
/// the child that came first stays first.
pub proof fn lemma_groups_in_order(children: Seq<CallNodeView>, n: int)
    requires
        0 <= n <= children.len(),
    ensures
        groups_in_order(grouped(children, n), n),
    decreases n,
{
    if n > 0 {
        lemma_groups_in_order(children, n - 1);
        lemma_insert_in_order(grouped(children, n - 1), children[n - 1].name, n - 1);
    }
}

/// A position among the groups lies between the start and the end.
proof fn lemma_group_position(groups: Seq<NameGroupView>, name: Seq<char>, i: int)
    requires
        0 <= i <= groups.len(),
    ensures
        i <= group_position(groups, name, i) <= groups.len(),
    decreases groups.len() - i,
{
    if i < groups.len() && text_less(groups[i].name, name, 0) {
        lemma_group_position(groups, name, i + 1);
    }
}

/// Groups the children by name.
#[verifier::rlimit(50)]
fn group_children(children: &Vec<CallNode>) -> (groups: Vec<NameGroup>)
    ensures
        view_groups(groups@) == grouped(view_nodes(children@), children.len() as int),
{
    let ghost all = view_nodes(children@);
    let mut groups: Vec<NameGroup> = Vec::new();
    let mut k: usize = 0;
    assert(view_groups(groups@) =~= grouped(all, 0));
    while k < children.len()
        invariant
            k <= children.len(),
            all == view_nodes(children@),
            view_groups(groups@) == grouped(all, k as int),
        decreases children.len() - k,
    {
        let ghost before = view_groups(groups@);
        let name = &children[k].name;
        assert(all[k as int].name == name@);
        let mut j: usize = 0;
        while j < groups.len() && is_less(groups[j].name.as_str(), name.as_str())
            invariant
                j <= groups.len(),
                before == view_groups(groups@),
                group_position(before, name@, 0) == group_position(before, name@, j as int),
            decreases groups.len() - j,
        {
            j += 1;
        }
        proof {
            lemma_group_position(before, name@, 0);
        }
        if j < groups.len() && crate::token::text_is(&groups[j].name, name.as_str()) {
            let mut group = groups.remove(j);
            let ghost old_members = group@.members;
            group.members.push(k);
            assert(group@.members =~= old_members.push(k as int));
            groups.insert(j, group);
            assert(view_groups(groups@) =~= group_insert(before, name@, k as int));
        } else {
            let mut members: Vec<usize> = Vec::new();
            members.push(k);
            let group = NameGroup { name: name.clone(), members };
            assert(group@.members =~= seq![k as int]);
            groups.insert(j, group);
            assert(view_groups(groups@) =~= group_insert(before, name@, k as int));
        }
        k += 1;
    }
    groups
}

/// The two choices that shape a diagram.
#[derive(Clone, Copy, Debug, PartialEq, Eq, Structural)]
pub struct RenderModes {
    pub grouping: GroupingMode,
    pub param_mode: ParamRenderMode,
}

/// What has been written so far while a diagram is rendered.
#[derive(Debug)]
pub struct Renderer {
    /// The text of the diagram.
    pub out: String,
    /// The identifiers of the parameter nodes that get the `params` class.
    pub param_ids: Vec<String>,
    /// The number that the next function node gets.
    pub fn_counter: usize,
    /// The number that the next parameter node gets.
    pub param_counter: usize,
}

pub ghost struct RenderState {
    pub out: Seq<char>,
    pub param_ids: Seq<Seq<char>>,
    pub fn_counter: nat,
    pub param_counter: nat,
}

/// The characters of each string of a list.
pub open spec fn view_ids(ids: Seq<String>) -> Seq<Seq<char>> {
    Seq::new(ids.len(), |i: int| ids[i]@)
}

impl View for Renderer {
    type V = RenderState;

    open spec fn view(&self) -> RenderState {
        RenderState {
            out: self.out@,
            param_ids: view_ids(self.param_ids@),
            fn_counter: self.fn_counter as nat,
            param_counter: self.param_counter as nat,
        }
    }
}

impl RenderState {
    /// This state with `text` written behind what is there.
    pub open spec fn write(self, text: Seq<char>) -> RenderState {
        RenderState { out: self.out + text, ..self }
    }
}

/// The identifier of a function node.
pub open spec fn fn_id(n: nat) -> Seq<char> {
    "F"@ + decimal(n)
}

/// The identifier of the subgraph that holds the parameters of a call.
pub open spec fn params_id(n: nat) -> Seq<char> {
    "Params"@ + decimal(n)
}

/// The identifier of the node that lists the parameters of a call.
pub open spec fn key_id(n: nat) -> Seq<char> {
    "PK"@ + decimal(n)
}

/// The identifier of the node of one parameter.
pub open spec fn data_id(group: nat, i: nat) -> Seq<char> {
    "P"@ + decimal(group) + "_"@ + decimal(i)
}

/// The line that opens the subgraph of the parameters of a call.
pub open spec fn params_open_line(id: Seq<char>) -> Seq<char> {
    "subgraph "@ + id + "[\" \"]\n"@
}

/// The line of the node of one parameter.
pub open spec fn data_line(id: Seq<char>, key: Seq<char>, value: Seq<char>) -> Seq<char> {
    "  "@ + id + "[\""@ + key + " = "@ + value + "\"]:::data\n"@
}

/// The line that links the node of a parameter to the one before it.
pub open spec fn link_line(before: Seq<char>, id: Seq<char>) -> Seq<char> {
    "  "@ + before + " --- "@ + id + "\n"@
}

/// The line of a function node.
pub open spec fn func_line(id: Seq<char>, name: Seq<char>) -> Seq<char> {
    id + "[\""@ + name + "()\"]:::func\n"@
}

/// The line of an edge from the parameters of a call to its function node.
pub open spec fn params_edge_line(params: Seq<char>, func: Seq<char>) -> Seq<char> {
    params + " --> "@ + func + "\n"@
}

/// The line of an edge from a call to something of one of its children.
pub open spec fn child_edge_line(parent: Seq<char>, child: Seq<char>) -> Seq<char> {
    "  "@ + parent + " --> "@ + child + "\n"@
}

/// The line that opens the subgraph of the calls of one function.
pub open spec fn group_open_line(name: Seq<char>) -> Seq<char> {
    "subgraph "@ + name + "Calls[\""@ + name + "(...)\"]\n"@
}

/// The line of the node that lists the parameters of a call.
pub open spec fn key_line(id: Seq<char>, label: Seq<char>) -> Seq<char> {
    id + "[\""@ + label + "\"]:::data\n"@
}

/// The line of the dotted edge from a function node to its parameters.
pub open spec fn key_edge_line(func: Seq<char>, key: Seq<char>) -> Seq<char> {
    func + " -.-> "@ + key + "\n"@
}

/// One entry of the list of parameters in a label.
pub open spec fn label_entry(key: Seq<char>, value: Seq<char>) -> Seq<char> {
    "\n\u{2022} "@ + key + " = "@ + value
}

/// The label that lists the first `n` parameters of a call.
pub open spec fn key_label(name: Seq<char>, fields: Seq<(Seq<char>, Seq<char>)>, n: int) -> Seq<
    char,
>
    decreases n,
{
    if n <= 0 || n > fields.len() {
        name + "(params):"@
    } else {
        key_label(name, fields, n - 1) + label_entry(fields[n - 1].0, fields[n - 1].1)
    }
}

/// The text after the nodes of the first `n` parameters of a call are
/// written behind `out`, each linked to the one before it.
pub open spec fn field_lines(
    out: Seq<char>,
    fields: Seq<(Seq<char>, Seq<char>)>,
    group: nat,
    n: int,
) -> Seq<char>
    decreases n,
{
    if n <= 0 || n > fields.len() {
        out
    } else {
        let before = field_lines(out, fields, group, n - 1);
        let i = (n - 1) as nat;
        let with_node = before + data_line(data_id(group, i), fields[n - 1].0, fields[n - 1].1);
        if n > 1 {
            with_node + link_line(data_id(group, (i - 1) as nat), data_id(group, i))
        } else {
            with_node
        }
    }
}

/// What rendering one call gives: the state afterwards, the identifier of
/// its function node, and the identifier of its parameters where it has
/// one.
pub open spec fn render_node(m: RenderModes, node: CallNodeView, st: RenderState) -> (
    RenderState,
    Seq<char>,
    Option<Seq<char>>,
)
    decreases node, 0int, 0int,
{
    let f = fn_id(st.fn_counter);
    let st1 = RenderState { fn_counter: next(st.fn_counter), ..st };
    if m.param_mode == ParamRenderMode::PerFieldSubgraph {
        let p = params_id(st1.param_counter);
        let group = next(st1.param_counter);
        let st2 = RenderState {
            param_counter: group,
            param_ids: st1.param_ids.push(p),
            ..st1
        }.write(params_open_line(p));
        let st3 = RenderState {
            out: field_lines(st2.out, node.fields, group, node.fields.len() as int),
            ..st2
        }.write("end\n"@).write(func_line(f, node.name)).write(params_edge_line(p, f));
        (render_children_subgraph(m, f, node.children, st3), f, Some(p))
    } else {
        let st2 = st1.write(func_line(f, node.name));
        if node.fields.len() > 0 {
            let k = key_id(st2.param_counter);
            let label = key_label(node.name, node.fields, node.fields.len() as int);
            let st3 = RenderState { param_counter: next(st2.param_counter), ..st2 }.write(
                key_line(k, label),
            ).write(key_edge_line(f, k));
            let st4 = if m.param_mode == ParamRenderMode::SingleNodeGrouped {
                RenderState { param_ids: st3.param_ids.push(k), ..st3 }
            } else {
                st3
            };
            (render_children_direct(m, f, node.children, node.children.len() as int, st4), f, Some(k))
        } else {
            (render_children_direct(m, f, node.children, node.children.len() as int, st2), f, None)
        }
    }
}

/// What rendering the children of a call gives where parameters have
/// subgraphs: grouped by name where that is asked for and there are
/// children, one after another otherwise. The parent gets an edge to the
/// parameters of each child.
pub open spec fn render_children_subgraph(
    m: RenderModes,
    parent: Seq<char>,
    children: Seq<CallNodeView>,
    st: RenderState,
) -> RenderState
    decreases children, 3int, 0int,
{
    if m.grouping == GroupingMode::MergeByName && children.len() > 0 {
        let groups = grouped(children, children.len() as int);
        render_groups(m, parent, children, groups, groups.len() as int, st)
    } else {
        render_each(m, parent, children, children.len() as int, st)
    }
}

/// What rendering the first `n` children one after another gives.
pub open spec fn render_each(
    m: RenderModes,
    parent: Seq<char>,
    children: Seq<CallNodeView>,
    n: int,
    st: RenderState,
) -> RenderState
    decreases children, 1int, n,
{
    if n <= 0 || n > children.len() {
        st
    } else {
        let st1 = render_each(m, parent, children, n - 1, st);
        let (st2, _, p) = render_node(m, children[n - 1], st1);
        match p {
            Some(p) => st2.write(child_edge_line(parent, p)),
            None => st2,
        }
    }
}

/// What rendering the first `n` children gives where each call has one
/// node: the parent gets an edge to the function node of each child.
pub open spec fn render_children_direct(
    m: RenderModes,
    parent: Seq<char>,
    children: Seq<CallNodeView>,
    n: int,
    st: RenderState,
) -> RenderState
    decreases children, 1int, n,
{
    if n <= 0 || n > children.len() {
        st
    } else {
        let st1 = render_children_direct(m, parent, children, n - 1, st);
        let (st2, f, _) = render_node(m, children[n - 1], st1);
        st2.write(child_edge_line(parent, f))
    }
}

/// What rendering the first `g` groups gives: for each group its subgraph
/// with its members in it, and then the edges from the parent.
pub open spec fn render_groups(
    m: RenderModes,
    parent: Seq<char>,
    children: Seq<CallNodeView>,
    groups: Seq<NameGroupView>,
    g: int,
    st: RenderState,
) -> RenderState
    decreases children, 2int, g,
{
    if g <= 0 || g > groups.len() {
        st
    } else {
        let st1 = render_groups(m, parent, children, groups, g - 1, st);
        let group = groups[g - 1];
        let st2 = st1.write(group_open_line(group.name)).write("  direction TB\n"@);
        let (st3, ids) = render_members(
            m,
            children,
            group.members,
            group.members.len() as int,
            st2,
        );
        let st4 = st3.write("end\n"@);
        RenderState { out: edge_lines(st4.out, parent, ids, ids.len() as int), ..st4 }
    }
}

/// What rendering the first `k` members of a group gives: the state
/// afterwards, and the identifiers of their parameters.
pub open spec fn render_members(
    m: RenderModes,
    children: Seq<CallNodeView>,
    members: Seq<int>,
    k: int,
    st: RenderState,
) -> (RenderState, Seq<Seq<char>>)
    decreases children, 1int, k,
{
    if k <= 0 || k > members.len() {
        (st, Seq::empty())
    } else {
        let (st1, ids) = render_members(m, children, members, k - 1, st);
        let idx = members[k - 1];
        if 0 <= idx < children.len() {
            let (st2, _, p) = render_node(m, children[idx], st1);
            match p {
                Some(p) => (st2, ids.push(p)),
                None => (st2, ids),
            }
        } else {
            (st1, ids)
        }
    }
}

/// The text after an edge from the parent to each of the first `n`
/// identifiers is written behind `out`.
pub open spec fn edge_lines(out: Seq<char>, parent: Seq<char>, ids: Seq<Seq<char>>, n: int) -> Seq<
    char,
>
    decreases n,
{
    if n <= 0 || n > ids.len() {
        out
    } else {
        edge_lines(out, parent, ids, n - 1) + child_edge_line(parent, ids[n - 1])
    }
}

/// What rendering the first `n` roots gives.
pub open spec fn render_roots(m: RenderModes, roots: Seq<CallNodeView>, n: int, st: RenderState) -> RenderState
    decreases n,
{
    if n <= 0 || n > roots.len() {
        st
    } else {
        render_node(m, roots[n - 1], render_roots(m, roots, n - 1, st)).0
    }
}

/// The text after a line for each of the first `n` identifiers is written
/// behind `out`.
pub open spec fn key_lines(out: Seq<char>, ids: Seq<Seq<char>>, n: int) -> Seq<char>
    decreases n,
{
    if n <= 0 || n > ids.len() {
        out
    } else {
        key_lines(out, ids, n - 1) + ("  "@ + ids[n - 1] + "\n"@)
    }
}

/// The first `n` identifiers with commas between them.
pub open spec fn joined(ids: Seq<Seq<char>>, n: int) -> Seq<char>
    decreases n,
{
    if n <= 0 || n > ids.len() {
        Seq::empty()
    } else if n == 1 {
        ids[0]
    } else {
        joined(ids, n - 1) + ","@ + ids[n - 1]
    }
}

/// The class definitions that every diagram ends with.
pub open spec fn styles() -> Seq<char> {
    "\nclassDef func fill:#c6f6d5,stroke:#2f855a,stroke-width:2px,color:#22543d;\nclassDef data fill:#bee3f8,stroke:#2b6cb0,stroke-width:1.5px,color:#1a365d;\nclassDef params fill:none,stroke:#e53e3e,stroke-width:2px,color:#742a2a;\n"@
}

/// The diagram of the calls `roots`: the header, the calls in the order
/// recorded, the shared subgraph of parameter nodes where that is asked for
/// and there are any, the class definitions, and the line that gives the
/// parameter nodes their class where there are any.
pub open spec fn rendered(m: RenderModes, roots: Seq<CallNodeView>) -> Seq<char> {
    let start = RenderState {
        out: "flowchart TD\n"@,
        param_ids: Seq::empty(),
        fn_counter: 1,
        param_counter: 1,
    };
    let st = render_roots(m, roots, roots.len() as int, start);
    let ids = st.param_ids;
    let with_key = if m.param_mode == ParamRenderMode::SingleNodeGrouped && ids.len() > 0 {
        key_lines(
            st.out + "subgraph ParamsKey[\"Parameters\"]\n"@ + "  direction TB\n"@,
            ids,
            ids.len() as int,
        ) + "end\n"@
    } else {
        st.out
    };
    let with_styles = with_key + styles();
    if ids.len() > 0 {
        with_styles + ("class "@ + joined(ids, ids.len() as int) + " params;\n"@)
    } else {
        with_styles
    }
}

/// The characters of an optional string.
pub open spec fn opt_chars(o: Option<String>) -> Option<Seq<char>> {
    match o {
        Some(s) => Some(s@),
        None => None,
    }
}

/// Writes a prefix and a number in decimal digits.
fn numbered(prefix: &str, n: usize) -> (r: String)
    ensures
        r@ == prefix@ + decimal(n as nat),
{
    let mut r = String::from_str(prefix);
    let d = decimal_string(n);
    r.append(d.as_str());
    r
}

/// Writes the identifier of the node of one parameter.
fn data_id_text(group: usize, i: usize) -> (r: String)
    ensures
        r@ == data_id(group as nat, i as nat),
{
    let mut r = numbered("P", group);
    r.append("_");
    let d = decimal_string(i);
    r.append(d.as_str());
    r
}

/// Writes three parts one after another.
fn three(a: &str, b: &str, c: &str) -> (r: String)
    ensures
        r@ == a@ + b@ + c@,
{
    let mut r = String::from_str(a);
    r.append(b);
    r.append(c);
    r
}

/// Writes five parts one after another.
fn five(a: &str, b: &str, c: &str, d: &str, e: &str) -> (r: String)
    ensures
        r@ == a@ + b@ + c@ + d@ + e@,
{
    let mut r = three(a, b, c);
    r.append(d);
    r.append(e);
    r
}

/// Writes the line of the node of one parameter.
fn data_line_text(id: &str, key: &str, value: &str) -> (r: String)
    ensures
        r@ == data_line(id@, key@, value@),
{
    let mut r = five("  ", id, "[\"", key, " = ");
    r.append(value);
    r.append("\"]:::data\n");
    r
}

/// Writes the line of an edge from a call to something of one of its
/// children.
fn child_edge_text(parent: &str, child: &str) -> (r: String)
    ensures
        r@ == child_edge_line(parent@, child@),
{
    five("  ", parent, " --> ", child, "\n")
}

/// Writes the label that lists the parameters of a call.
fn key_label_text(name: &String, fields: &Vec<(String, String)>) -> (r: String)
    ensures
        r@ == key_label(name@, view_fields(fields@), fields.len() as int),
{
    let ghost all = view_fields(fields@);
    let mut label = name.clone();
    label.append("(params):");
    let mut i: usize = 0;
    while i < fields.len()
        invariant
            i <= fields.len(),
            all == view_fields(fields@),
            label@ == key_label(name@, all, i as int),
        decreases fields.len() - i,
    {
        let mut entry = three("\n\u{2022} ", fields[i].0.as_str(), " = ");
        entry.append(fields[i].1.as_str());
        label.append(entry.as_str());
        i += 1;
    }
    label
}

impl Renderer {
    /// A renderer that has written `out` and counts from 1.
    pub fn new(out: String) -> (r: Self)
        ensures
            r@ == (RenderState {
                out: out@,
                param_ids: Seq::empty(),
                fn_counter: 1,
                param_counter: 1,
            }),
    {
        let r = Renderer { out, param_ids: Vec::new(), fn_counter: 1, param_counter: 1 };
        assert(view_ids(r.param_ids@) =~= Seq::empty());
        r
    }

    /// Writes `text` behind what is there.
    pub fn write(&mut self, text: &str)
        ensures
            final(self)@ == old(self)@.write(text@),
    {
        self.out.append(text);
    }

    /// Notes the identifier of a parameter node that gets the `params`
    /// class.
    pub fn note(&mut self, id: &String)
        ensures
            final(self)@ == (RenderState {
                param_ids: old(self)@.param_ids.push(id@),
                ..old(self)@
            }),
    {
        let ghost before = self.param_ids@;
        let copy = id.clone();
        self.param_ids.push(copy);
        assert(view_ids(self.param_ids@) =~= view_ids(before).push(id@));
    }

    /// Writes the nodes of the parameters of a call, each linked to the
    /// one before it.
    fn write_fields(&mut self, fields: &Vec<(String, String)>, group: usize)
        ensures
            final(self)@ == (RenderState {
                out: field_lines(
                    old(self)@.out,
                    view_fields(fields@),
                    group as nat,
                    fields.len() as int,
                ),
                ..old(self)@
            }),
    {
        let ghost all = view_fields(fields@);
        let ghost start = self@;
        let mut i: usize = 0;
        while i < fields.len()
            invariant
                i <= fields.len(),
                all == view_fields(fields@),
                self@ == (RenderState {
                    out: field_lines(start.out, all, group as nat, i as int),
                    ..start
                }),
            decreases fields.len() - i,
        {
            let id = data_id_text(group, i);
            let line = data_line_text(id.as_str(), fields[i].0.as_str(), fields[i].1.as_str());
            self.write(line.as_str());
            if i > 0 {
                let before = data_id_text(group, i - 1);
                let link = five("  ", before.as_str(), " --- ", id.as_str(), "\n");
                self.write(link.as_str());
            }
            i += 1;
        }
    }

    /// Writes an edge from the parent to each of the identifiers.
    fn write_edges(&mut self, parent: &String, ids: &Vec<String>)
        ensures
            final(self)@ == (RenderState {
                out: edge_lines(old(self)@.out, parent@, view_ids(ids@), ids.len() as int),
                ..old(self)@
            }),
    {
        let ghost all = view_ids(ids@);
        let ghost start = self@;
        let mut i: usize = 0;
        while i < ids.len()
            invariant
                i <= ids.len(),
                all == view_ids(ids@),
                self@ == (RenderState {
                    out: edge_lines(start.out, parent@, all, i as int),
                    ..start
                }),
            decreases ids.len() - i,
        {
            let line = child_edge_text(parent.as_str(), ids[i].as_str());
            self.write(line.as_str());
            i += 1;
        }
    }
}

/// Collects recorded calls and renders them as a Mermaid flowchart.
#[derive(Debug)]
pub struct MermaidLayer {
    roots: Vec<CallNode>,
    grouping: GroupingMode,
    param_mode: ParamRenderMode,
    auto_flush: bool,
}

pub ghost struct MermaidLayerView {
    pub roots: Seq<CallNodeView>,
    pub grouping: GroupingMode,
    pub param_mode: ParamRenderMode,
    pub auto_flush: bool,
}

impl MermaidLayerView {
    /// The two choices that shape the diagram.
    pub open spec fn modes(self) -> RenderModes {
        RenderModes { grouping: self.grouping, param_mode: self.param_mode }
    }
}

impl View for MermaidLayer {
    type V = MermaidLayerView;

    closed spec fn view(&self) -> MermaidLayerView {
        MermaidLayerView {
            roots: view_nodes(self.roots@),
            grouping: self.grouping,
            param_mode: self.param_mode,
            auto_flush: self.auto_flush,
        }
    }
}

impl Default for MermaidLayer {
    fn default() -> (r: Self)
        ensures
            r@ == (MermaidLayerView {
                roots: Seq::empty(),
                grouping: GroupingMode::MergeByName,
                param_mode: ParamRenderMode::PerFieldSubgraph,
                auto_flush: true,
            }),
    {
        Self::new()
    }
}

impl MermaidLayer {
    /// A layer without calls that merges calls by name, draws each
    /// parameter as a node of its own, and flushes by itself.
    pub fn new() -> (r: Self)
        ensures
            r@ == (MermaidLayerView {
                roots: Seq::empty(),
                grouping: GroupingMode::MergeByName,
                param_mode: ParamRenderMode::PerFieldSubgraph,
                auto_flush: true,
            }),
    {
        let r = Self {
            roots: Vec::new(),
            grouping: GroupingMode::MergeByName,
            param_mode: ParamRenderMode::PerFieldSubgraph,
            auto_flush: true,
        };
        assert(view_nodes(r.roots@) =~= Seq::empty());
        r
    }

    /// This layer with another way to group calls.
    pub fn with_mode(self, mode: GroupingMode) -> (r: Self)
        ensures
            r@ == (MermaidLayerView { grouping: mode, ..self@ }),
    {
        let mut layer = self;
        layer.grouping = mode;
        layer
    }

    /// This layer with another way to draw parameters.
    pub fn with_params_mode(self, mode: ParamRenderMode) -> (r: Self)
        ensures
            r@ == (MermaidLayerView { param_mode: mode, ..self@ }),
    {
        let mut layer = self;
        layer.param_mode = mode;
        layer
    }

    /// This layer, not flushing by itself any more.
    pub fn without_auto_flush(self) -> (r: Self)
        ensures
            r@ == (MermaidLayerView { auto_flush: false, ..self@ }),
    {
        let mut layer = self;
        layer.auto_flush = false;
        layer
    }

    /// Records a call that has no parent, behind those recorded before, and
    /// says whether the diagram is to be flushed now.
    pub fn record_root(&mut self, node: CallNode) -> (flush: bool)
        ensures
            final(self)@ == (MermaidLayerView {
                roots: old(self)@.roots.push(node@),
                ..old(self)@
            }),
            flush == old(self)@.auto_flush,
    {
        let ghost before = self.roots@;
        self.roots.push(node);
        assert(view_nodes(self.roots@) =~= view_nodes(before).push(node@));
        self.auto_flush
    }

    /// Whether the layer flushes by itself.
    pub fn auto_flush(&self) -> (r: bool)
        ensures
            r == self@.auto_flush,
    {
        self.auto_flush
    }

    /// The two choices that shape the diagram.
    pub fn modes(&self) -> (r: RenderModes)
        ensures
            r == self@.modes(),
    {
        RenderModes { grouping: self.grouping, param_mode: self.param_mode }
    }

    /// Renders all recorded calls as Mermaid flowchart text.
    #[verifier::rlimit(50)]
    pub fn render(&self) -> (r: String)
        ensures
            r@ == rendered(self@.modes(), self@.roots),
    {
        let ghost roots = view_nodes(self.roots@);
        let ghost m = self@.modes();
        let mut renderer = Renderer::new(String::from_str("flowchart TD\n"));
        let ghost start = renderer@;
        let mut i: usize = 0;
        while i < self.roots.len()
            invariant
                i <= self.roots.len(),
                roots == view_nodes(self.roots@),
                m == self@.modes(),
                renderer@ == render_roots(m, roots, i as int, start),
            decreases self.roots.len() - i,
        {
            let ids = self.render_node(&mut renderer, &self.roots[i]);
            i += 1;
        }
        let ghost st = renderer@;
        let Renderer { out, param_ids, fn_counter: _, param_counter: _ } = renderer;
        let mut out = out;
        let ghost ids = view_ids(param_ids@);
        let grouped_keys = match self.param_mode {
            ParamRenderMode::SingleNodeGrouped => true,
            _ => false,
        };
        if grouped_keys && param_ids.len() > 0 {
            out.append("subgraph ParamsKey[\"Parameters\"]\n");
            out.append("  direction TB\n");
            let ghost base = out@;
            let mut k: usize = 0;
            while k < param_ids.len()
                invariant
                    k <= param_ids.len(),
                    ids == view_ids(param_ids@),
                    out@ == key_lines(base, ids, k as int),
                decreases param_ids.len() - k,
            {
                let line = three("  ", param_ids[k].as_str(), "\n");
                out.append(line.as_str());
                k += 1;
            }
            out.append("end\n");
        }
        out.append(
            "\nclassDef func fill:#c6f6d5,stroke:#2f855a,stroke-width:2px,color:#22543d;\nclassDef data fill:#bee3f8,stroke:#2b6cb0,stroke-width:1.5px,color:#1a365d;\nclassDef params fill:none,stroke:#e53e3e,stroke-width:2px,color:#742a2a;\n",
        );
        if param_ids.len() > 0 {
            let mut list = param_ids[0].clone();
            let mut k: usize = 1;
            while k < param_ids.len()
                invariant
                    1 <= k <= param_ids.len(),
                    ids == view_ids(param_ids@),
                    list@ == joined(ids, k as int),
                decreases param_ids.len() - k,
            {
                list.append(",");
                list.append(param_ids[k].as_str());
                k += 1;
            }
            let line = three("class ", list.as_str(), " params;\n");
            out.append(line.as_str());
        }
        out
    }

    /// Renders the children of a call where parameters have subgraphs.
    #[verifier::rlimit(50)]
    pub fn render_children_subgraph(
        &self,
        renderer: &mut Renderer,
        parent_fn_id: &String,
        children: &Vec<CallNode>,
    )
        ensures
            final(renderer)@ == render_children_subgraph(
                self@.modes(),
                parent_fn_id@,
                view_nodes(children@),
                old(renderer)@,
            ),
        decreases view_nodes(children@), 3int, 0int,
    {
        let ghost all = view_nodes(children@);
        let ghost m = self@.modes();
        let ghost start = renderer@;
        let merge = match self.grouping {
            GroupingMode::MergeByName => true,
            GroupingMode::UniquePerCall => false,
        };
        if merge && children.len() > 0 {
            let groups = group_children(children);
            let ghost gs = view_groups(groups@);
            let mut g: usize = 0;
            while g < groups.len()
                invariant
                    g <= groups.len(),
                    all == view_nodes(children@),
                    m == self@.modes(),
                    gs == view_groups(groups@),
                    renderer@ == render_groups(m, parent_fn_id@, all, gs, g as int, start),
                decreases groups.len() - g,
            {
                let group = &groups[g];
                let open = five("subgraph ", group.name.as_str(), "Calls[\"", group.name.as_str(), "(...)\"]\n");
                renderer.write(open.as_str());
                renderer.write("  direction TB\n");
                let ghost members = group@.members;
                let ghost inside = renderer@;
                let mut child_param_ids: Vec<String> = Vec::new();
                let mut k: usize = 0;
                assert(view_ids(child_param_ids@) =~= Seq::empty());
                while k < group.members.len()
                    invariant
                        k <= group.members.len(),
                        all == view_nodes(children@),
                        m == self@.modes(),
                        members == group@.members,
                        (renderer@, view_ids(child_param_ids@)) == render_members(
                            m,
                            all,
                            members,
                            k as int,
                            inside,
                        ),
                    decreases group.members.len() - k,
                {
                    let idx = group.members[k];
                    assert(members[k as int] == idx as int);
                    if idx < children.len() {
                        let ghost before = child_param_ids@;
                        proof {
                            assert(all[idx as int] == view_node(children@[idx as int]));
                            assert(decreases_to!(all => all[idx as int]));
                        }
                        let (_child_fn, child_param) = self.render_node(renderer, &children[idx]);
                        if let Some(pid) = child_param {
                            child_param_ids.push(pid);
                            assert(view_ids(child_param_ids@) =~= view_ids(before).push(pid@));
                        }
                    }
                    k += 1;
                }
                renderer.write("end\n");
                renderer.write_edges(parent_fn_id, &child_param_ids);
                g += 1;
            }
        } else {
            let mut i: usize = 0;
            while i < children.len()
                invariant
                    i <= children.len(),
                    all == view_nodes(children@),
                    m == self@.modes(),
                    renderer@ == render_each(m, parent_fn_id@, all, i as int, start),
                decreases children.len() - i,
            {
                proof {
                    assert(all[i as int] == view_node(children@[i as int]));
                    assert(decreases_to!(all => all[i as int]));
                }
                let (_child_fn, child_param) = self.render_node(renderer, &children[i]);
                if let Some(pid) = child_param {
                    let line = child_edge_text(parent_fn_id.as_str(), pid.as_str());
                    renderer.write(line.as_str());
                }
                i += 1;
            }
        }
    }

    /// Renders the children of a call where each call has one node.
    pub fn render_children_direct(
        &self,
        renderer: &mut Renderer,
        parent_fn_id: &String,
        children: &Vec<CallNode>,
    )
        ensures
            final(renderer)@ == render_children_direct(
                self@.modes(),
                parent_fn_id@,
                view_nodes(children@),
                children.len() as int,
                old(renderer)@,
            ),
        decreases view_nodes(children@), 1int, children.len(),
    {
        let ghost all = view_nodes(children@);
        let ghost m = self@.modes();
        let ghost start = renderer@;
        let mut i: usize = 0;
        while i < children.len()
            invariant
                i <= children.len(),
                all == view_nodes(children@),
                m == self@.modes(),
                renderer@ == render_children_direct(m, parent_fn_id@, all, i as int, start),
            decreases children.len() - i,
        {
            proof {
                assert(all[i as int] == view_node(children@[i as int]));
                assert(decreases_to!(all => all[i as int]));
            }
            let (child_fn, _child_param) = self.render_node(renderer, &children[i]);
            let line = child_edge_text(parent_fn_id.as_str(), child_fn.as_str());
            renderer.write(line.as_str());
            i += 1;
        }
    }

    /// Renders one call and, below it, its children. Returns the identifier
    /// of its function node, and the identifier of its parameters where it
    /// has one.
    #[verifier::rlimit(50)]
    pub fn render_node(&self, renderer: &mut Renderer, node: &CallNode) -> (ids: (
        String,
        Option<String>,
    ))
        ensures
            (final(renderer)@, ids.0@, opt_chars(ids.1)) == render_node(
                self@.modes(),
                node@,
                old(renderer)@,
            ),
        decreases node@, 0int, 0int,
    {
        let fn_id = numbered("F", renderer.fn_counter);
        renderer.fn_counter = advance(renderer.fn_counter);
        match self.param_mode {
            ParamRenderMode::PerFieldSubgraph => {
                let params_id = numbered("Params", renderer.param_counter);
                renderer.param_counter = advance(renderer.param_counter);
                renderer.note(&params_id);
                let open = three("subgraph ", params_id.as_str(), "[\" \"]\n");
                renderer.write(open.as_str());
                renderer.write_fields(&node.fields, renderer.param_counter);
                renderer.write("end\n");
                let func = three(fn_id.as_str(), "[\"", node.name.as_str());
                let mut func = func;
                func.append("()\"]:::func\n");
                renderer.write(func.as_str());
                let mut edge = three(params_id.as_str(), " --> ", fn_id.as_str());
                edge.append("\n");
                renderer.write(edge.as_str());
                proof {
                    assert(view_nodes(node.children@) == node@.children);
                    assert(decreases_to!(node@ => node@.children));
                }
                self.render_children_subgraph(renderer, &fn_id, &node.children);
                (fn_id, Some(params_id))
            },
            _ => {
                let mut func = three(fn_id.as_str(), "[\"", node.name.as_str());
                func.append("()\"]:::func\n");
                renderer.write(func.as_str());
                let mut pk_opt: Option<String> = None;
                if node.fields.len() > 0 {
                    let pk_id = numbered("PK", renderer.param_counter);
                    renderer.param_counter = advance(renderer.param_counter);
                    let label = key_label_text(&node.name, &node.fields);
                    let mut line = three(pk_id.as_str(), "[\"", label.as_str());
                    line.append("\"]:::data\n");
                    renderer.write(line.as_str());
                    let mut edge = three(fn_id.as_str(), " -.-> ", pk_id.as_str());
                    edge.append("\n");
                    renderer.write(edge.as_str());
                    match self.param_mode {
                        ParamRenderMode::SingleNodeGrouped => {
                            renderer.note(&pk_id);
                        },
                        _ => {},
                    }
                    pk_opt = Some(pk_id);
                }
                proof {
                    assert(view_nodes(node.children@) == node@.children);
                    assert(decreases_to!(node@ => node@.children));
                }
                self.render_children_direct(renderer, &fn_id, &node.children);
                (fn_id, pk_opt)
            },
        }
    }
}

} // verus!
