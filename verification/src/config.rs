//! The registry of saved targets: an ordered list of named addresses.

use vstd::prelude::*;
use vstd::string::StringExecFns;

verus! {

/// The port every target listens on.
pub const DEFAULT_PORT: u16 = 8000;

/// The character of the decimal digit `d`.
pub open spec fn digit(d: int) -> char {
    (48 + d) as u8 as char
}

/// The decimal numeral of `n`, without leading zeros.
pub open spec fn octet_text(n: u8) -> Seq<char> {
    if n >= 100 {
        seq![digit(n as int / 100), digit((n as int / 10) % 10), digit(n as int % 10)]
    } else if n >= 10 {
        seq![digit(n as int / 10), digit(n as int % 10)]
    } else {
        seq![digit(n as int)]
    }
}

/// The character of the decimal digit `d`.
fn digit_char(d: u8) -> (c: char)
    requires
        d < 10,
    ensures
        c == digit(d as int),
{
    (48 + d) as char
}

/// Writes the decimal numeral of `n` to the end of `text`.
fn push_octet(text: &mut String, n: u8)
    ensures
        final(text)@ == old(text)@ + octet_text(n),
{
    if n >= 100 {
        text.push(digit_char(n / 100));
    }
    if n >= 10 {
        text.push(digit_char((n / 10) % 10));
    }
    text.push(digit_char(n % 10));
    assert(text@ =~= old(text)@ + octet_text(n));
}

/// An IPv4 address, held as its four octets.
#[derive(Debug, Clone, Copy, PartialEq, Eq, Structural)]
pub struct Ipv4Address {
    pub a: u8,
    pub b: u8,
    pub c: u8,
    pub d: u8,
}

impl Ipv4Address {
    /// The address `a.b.c.d`.
    pub fn new(a: u8, b: u8, c: u8, d: u8) -> (addr: Self)
        ensures
            addr == (Ipv4Address { a, b, c, d }),
    {
        Ipv4Address { a, b, c, d }
    }

    /// The address in dotted decimal notation.
    pub open spec fn text(self) -> Seq<char> {
        octet_text(self.a) + seq!['.'] + octet_text(self.b) + seq!['.'] + octet_text(self.c)
            + seq!['.'] + octet_text(self.d)
    }

    /// The address in dotted decimal notation.
    pub fn to_text(&self) -> (text: String)
        ensures
            text@ == self.text(),
    {
        let mut text = String::new();
        push_octet(&mut text, self.a);
        text.push('.');
        push_octet(&mut text, self.b);
        text.push('.');
        push_octet(&mut text, self.c);
        text.push('.');
        push_octet(&mut text, self.d);
        assert(text@ =~= self.text());
        text
    }

    /// The four octets, most significant first.
    pub fn octets(&self) -> (o: [u8; 4])
        ensures
            o@ == seq![self.a, self.b, self.c, self.d],
    {
        [self.a, self.b, self.c, self.d]
    }
}

/// A saved target: a name and the address it stands for.
#[derive(Debug)]
pub struct Connection {
    pub name: String,
    pub address: Ipv4Address,
}

/// What a [`Connection`] is to the contracts.
pub ghost struct ConnectionView {
    pub name: Seq<char>,
    pub address: Ipv4Address,
}

impl View for Connection {
    type V = ConnectionView;

    open spec fn view(&self) -> ConnectionView {
        ConnectionView { name: self.name@, address: self.address }
    }
}

impl Connection {
    /// The target called `name` at `address`.
    pub fn new(name: String, address: Ipv4Address) -> (c: Self)
        ensures
            c.name == name,
            c.address == address,
    {
        Connection { name, address }
    }
}

/// Whether entry `i` of `s` is called `name`.
pub open spec fn named_at(s: Seq<ConnectionView>, name: Seq<char>, i: int) -> bool {
    0 <= i < s.len() && s[i].name == name
}

/// Whether some entry of `s` is called `name`.
pub open spec fn has_name(s: Seq<ConnectionView>, name: Seq<char>) -> bool {
    exists|i: int| named_at(s, name, i)
}

/// The place of the entry called `name`; meaningful where `has_name` holds.
pub open spec fn index_of(s: Seq<ConnectionView>, name: Seq<char>) -> int {
    choose|i: int| named_at(s, name, i)
}

/// No two entries of `s` share a name.
pub open spec fn distinct_names(s: Seq<ConnectionView>) -> bool {
    forall|i: int, j: int|
        0 <= i < s.len() && 0 <= j < s.len() && #[trigger] s[i].name == #[trigger] s[j].name ==> i
            == j
}

/// The views of a list of connections, entry by entry.
pub open spec fn views_of(v: Seq<Connection>) -> Seq<ConnectionView> {
    v.map_values(|c: Connection| c@)
}

/// `s` after `name` was given `address`: an entry of that name is updated in
/// place, a new name goes to the end.
pub open spec fn with_entry(s: Seq<ConnectionView>, name: Seq<char>, address: Ipv4Address) -> Seq<
    ConnectionView,
> {
    if has_name(s, name) {
        s.update(index_of(s, name), ConnectionView { name, address })
    } else {
        s.push(ConnectionView { name, address })
    }
}

/// `s` without the entry called `name`.
pub open spec fn without_entry(s: Seq<ConnectionView>, name: Seq<char>) -> Seq<ConnectionView> {
    if has_name(s, name) {
        s.remove(index_of(s, name))
    } else {
        s
    }
}

/// What `target` resolves to in `s`: the address saved under that name, or
/// else the address that `target` itself spells, if it spells one.
pub open spec fn resolved(
    s: Seq<ConnectionView>,
    target: Seq<char>,
    literal: Option<Ipv4Address>,
) -> Option<(Ipv4Address, u16)> {
    if has_name(s, target) {
        Some((s[index_of(s, target)].address, DEFAULT_PORT))
    } else {
        match literal {
            Some(address) => Some((address, DEFAULT_PORT)),
            None => None,
        }
    }
}

/// The text of the table that tabled lays out in its markdown style for
/// `rows`, the first of which is the header.
pub uninterp spec fn markdown_table(rows: Seq<(Seq<char>, Seq<char>)>) -> Seq<char>;

/// Collects the rows into a `tabled::Table` of two columns, gives the table
/// tabled's `Style::markdown` and renders it with its `Display`. Nothing is
/// claimed of the text but that it is the one tabled makes of these rows.
#[verifier::external_body]
fn render_table(rows: &Vec<(String, String)>) -> (text: String)
    ensures
        text@ == markdown_table(rows.deep_view()),
{
    let cells = rows.iter().map(|row| [row.0.clone(), row.1.clone()]);
    let mut table: tabled::Table = cells.collect();
    table.with(tabled::settings::Style::markdown());
    table.to_string()
}

/// The rows of the table that lists `s`: a header, then name and address of
/// each entry.
pub open spec fn table_rows(s: Seq<ConnectionView>) -> Seq<(Seq<char>, Seq<char>)> {
    seq![("name"@, "address"@)] + Seq::new(s.len(), |i: int| (s[i].name, s[i].address.text()))
}

/// What is shown for the list `s`: a note where it is empty, else the table
/// of its entries.
pub open spec fn listing(s: Seq<ConnectionView>) -> Seq<char> {
    if s.len() == 0 {
        "No connections found."@
    } else {
        markdown_table(table_rows(s))
    }
}

/// The saved targets, in the order in which their names were first added.
pub struct ConnectionConfig {
    connections: Vec<Connection>,
}

impl View for ConnectionConfig {
    type V = Seq<ConnectionView>;

    closed spec fn view(&self) -> Seq<ConnectionView> {
        views_of(self.connections@)
    }
}

impl Default for ConnectionConfig {
    fn default() -> (config: Self)
        ensures
            config@ == Seq::<ConnectionView>::empty(),
    {
        ConnectionConfig::new()
    }
}

impl ConnectionConfig {
    #[verifier::type_invariant]
    spec fn names_are_distinct(self) -> bool {
        distinct_names(views_of(self.connections@))
    }

    /// The empty registry.
    pub fn new() -> (config: Self)
        ensures
            config@ == Seq::<ConnectionView>::empty(),
    {
        ConnectionConfig { connections: Vec::new() }
    }

    /// The number of saved targets.
    pub fn len(&self) -> (n: usize)
        ensures
            n == self@.len(),
    {
        self.connections.len()
    }

    /// The saved targets in order.
    pub fn get_connections(&self) -> (list: &Vec<Connection>)
        ensures
            views_of(list@) == self@,
    {
        &self.connections
    }

    /// The target at place `id`, if there is one.
    pub fn get_connection(&self, id: usize) -> (found: Option<&Connection>)
        ensures
            id < self@.len() ==> found is Some && found->0@ == self@[id as int],
            id >= self@.len() ==> found is None,
    {
        if id < self.connections.len() {
            Some(&self.connections[id])
        } else {
            None
        }
    }

    /// The place of the target called `name`.
    pub fn position(&self, name: &str) -> (found: Option<usize>)
        ensures
            match found {
                Some(i) => named_at(self@, name@, i as int) && i == index_of(self@, name@),
                None => !has_name(self@, name@),
            },
    {
        proof {
            use_type_invariant(self);
        }
        let wanted = name.to_owned();
        let mut i: usize = 0;
        while i < self.connections.len()
            invariant
                i <= self.connections.len(),
                wanted@ == name@,
                distinct_names(self@),
                forall|j: int| 0 <= j < i ==> !named_at(self@, name@, j),
            decreases self.connections.len() - i,
        {
            if self.connections[i].name == wanted {
                proof {
                    assert(named_at(self@, name@, i as int));
                    let k = index_of(self@, name@);
                    assert(named_at(self@, name@, k));
                    assert(self@[k].name == self@[i as int].name);
                }
                return Some(i);
            }
            i += 1;
        }
        None
    }

    /// The rows of the table that lists the saved targets.
    pub fn rows(&self) -> (rows: Vec<(String, String)>)
        ensures
            rows.deep_view() == table_rows(self@),
    {
        let mut rows: Vec<(String, String)> = Vec::new();
        rows.push((String::from_str("name"), String::from_str("address")));
        let mut i: usize = 0;
        while i < self.connections.len()
            invariant
                i <= self.connections.len(),
                rows@.len() == i + 1,
                rows@[0].0@ == "name"@,
                rows@[0].1@ == "address"@,
                forall|j: int|
                    0 <= j < i ==> (#[trigger] rows@[j + 1]).0@ == self.connections@[j].name@
                        && rows@[j + 1].1@ == self.connections@[j].address.text(),
            decreases self.connections.len() - i,
        {
            let connection = &self.connections[i];
            rows.push((connection.name.clone(), connection.address.to_text()));
            i += 1;
        }
        assert(rows.deep_view() =~= table_rows(self@)) by {
            let deep = rows.deep_view();
            let want = table_rows(self@);
            assert(deep.len() == want.len());
            assert forall|k: int| 0 <= k < deep.len() implies deep[k] == want[k] by {
                assert(deep[k] == rows@[k].deep_view());
                if k > 0 {
                    assert(rows@[(k - 1) + 1].0@ == self.connections@[k - 1].name@);
                }
            }
        }
        rows
    }

    /// The text that lists the saved targets: a note where there are none,
    /// else a table of names and addresses.
    pub fn list_connections(&self) -> (text: String)
        ensures
            text@ == listing(self@),
    {
        if self.connections.len() == 0 {
            return String::from_str("No connections found.");
        }
        let rows = self.rows();
        render_table(&rows)
    }

    /// Resolves `target`, a saved name or else an address written out.
    ///
    /// `literal` is the address that `target` spells, if it spells one;
    /// a saved name takes precedence over it.
    pub fn resolve_target(&self, target: &str, literal: Option<Ipv4Address>) -> (found: Option<
        (Ipv4Address, u16),
    >)
        ensures
            found == resolved(self@, target@, literal),
    {
        match self.position(target) {
            Some(i) => Some((self.connections[i].address, DEFAULT_PORT)),
            None => match literal {
                Some(address) => Some((address, DEFAULT_PORT)),
                None => None,
            },
        }
    }

    /// Saves `address` under `name`, replacing what the name stood for.
    pub fn add_connection(&mut self, name: String, address: Ipv4Address)
        ensures
            final(self)@ == with_entry(old(self)@, name@, address),
            distinct_names(final(self)@),
    {
        proof {
            use_type_invariant(&*self);
        }
        let ghost before = self@;
        let ghost entry = ConnectionView { name: name@, address };
        let place = self.position(name.as_str());
        let mut list: Vec<Connection> = Vec::new();
        core::mem::swap(&mut self.connections, &mut list);
        match place {
            Some(i) => {
                list.set(i, Connection { name, address });
                proof {
                    let after = views_of(list@);
                    assert(after =~= before.update(i as int, entry));
                    assert forall|x: int, y: int|
                        0 <= x < after.len() && 0 <= y < after.len() && #[trigger] after[x].name
                            == #[trigger] after[y].name implies x == y by {
                        assert(after[x].name == before[x].name);
                        assert(after[y].name == before[y].name);
                    }
                }
            },
            None => {
                list.push(Connection { name, address });
                proof {
                    let after = views_of(list@);
                    assert(after =~= before.push(entry));
                    assert forall|x: int, y: int|
                        0 <= x < after.len() && 0 <= y < after.len() && #[trigger] after[x].name
                            == #[trigger] after[y].name implies x == y by {
                        if x < before.len() {
                            assert(named_at(before, after[x].name, x));
                        }
                        if y < before.len() {
                            assert(named_at(before, after[y].name, y));
                        }
                    }
                }
            },
        }
        self.connections = list;
    }

    /// Forgets the target called `filter`; tells whether there was one.
    pub fn remove_connection(&mut self, filter: &str) -> (removed: bool)
        ensures
            removed == has_name(old(self)@, filter@),
            final(self)@ == without_entry(old(self)@, filter@),
            distinct_names(final(self)@),
    {
        proof {
            use_type_invariant(&*self);
        }
        let ghost before = self@;
        match self.position(filter) {
            Some(i) => {
                let mut list: Vec<Connection> = Vec::new();
                core::mem::swap(&mut self.connections, &mut list);
                list.remove(i);
                proof {
                    let after = views_of(list@);
                    assert(after =~= before.remove(i as int));
                    assert forall|x: int, y: int|
                        0 <= x < after.len() && 0 <= y < after.len() && #[trigger] after[x].name
                            == #[trigger] after[y].name implies x == y by {
                        let bx = if x < i { x } else { x + 1 };
                        let by = if y < i { y } else { y + 1 };
                        assert(after[x].name == before[bx].name);
                        assert(after[y].name == before[by].name);
                    }
                }
                self.connections = list;
                true
            },
            None => false,
        }
    }
}

} // verus!
