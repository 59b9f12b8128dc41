use vstd::prelude::*;

verus! {

/// Which filters a product search was given.
#[derive(Clone, Copy, Debug, PartialEq, Eq)]
pub struct SearchFilters {
    pub text: bool,
    pub category: bool,
    pub manufacturer: bool,
    pub min_price: bool,
    pub max_price: bool,
}

/// The placeholder of the `n`-th bound parameter, for `1 <= n <= 5`.
pub open spec fn placeholder(n: int) -> Seq<char> {
    if n == 1 {
        "$1"@
    } else if n == 2 {
        "$2"@
    } else if n == 3 {
        "$3"@
    } else if n == 4 {
        "$4"@
    } else {
        "$5"@
    }
}

pub open spec fn count(b: bool) -> int {
    if b {
        1
    } else {
        0
    }
}

pub open spec fn search_base() -> Seq<char> {
    "SELECT DISTINCT p.id, p.category_id, p.name, p.manufacturer, p.model, p.specifications, p.price FROM products p LEFT JOIN categories c ON p.category_id = c.id WHERE 1=1"@
}

pub open spec fn text_clause(n: int) -> Seq<char> {
    " AND (p.name ILIKE "@ + placeholder(n) + " OR p.manufacturer ILIKE "@ + placeholder(n)
        + " OR p.model ILIKE "@ + placeholder(n) + ")"@
}

pub open spec fn category_clause(n: int) -> Seq<char> {
    " AND c.slug = "@ + placeholder(n)
}

pub open spec fn manufacturer_clause(n: int) -> Seq<char> {
    " AND p.manufacturer ILIKE "@ + placeholder(n)
}

pub open spec fn min_price_clause(n: int) -> Seq<char> {
    " AND p.price >= "@ + placeholder(n)
}

pub open spec fn max_price_clause(n: int) -> Seq<char> {
    " AND p.price <= "@ + placeholder(n)
}

pub open spec fn when(b: bool, s: Seq<char>) -> Seq<char> {
    if b {
        s
    } else {
        Seq::empty()
    }
}

/// The search query: one condition for each filter given, in the order text,
/// category, manufacturer, lowest price, highest price, each numbered by the
/// count of filters given up to it; the results ordered by name.
pub open spec fn search_sql_text(f: SearchFilters) -> Seq<char> {
    let n1 = count(f.text);
    let n2 = n1 + count(f.category);
    let n3 = n2 + count(f.manufacturer);
    let n4 = n3 + count(f.min_price);
    let n5 = n4 + count(f.max_price);
    search_base() + when(f.text, text_clause(n1)) + when(f.category, category_clause(n2)) + when(
        f.manufacturer,
        manufacturer_clause(n3),
    ) + when(f.min_price, min_price_clause(n4)) + when(f.max_price, max_price_clause(n5))
        + " ORDER BY p.name"@
}

fn placeholder_text(n: u8) -> (r: &'static str)
    requires
        1 <= n <= 5,
    ensures
        r@ == placeholder(n as int),
{
    if n == 1 {
        "$1"
    } else if n == 2 {
        "$2"
    } else if n == 3 {
        "$3"
    } else if n == 4 {
        "$4"
    } else {
        "$5"
    }
}

fn append_clause(sql: &mut String, clause: &str, n: u8)
    requires
        1 <= n <= 5,
    ensures
        final(sql)@ == old(sql)@ + (clause@ + placeholder(n as int)),
{
    let ghost before = sql@;
    sql.append(clause);
    sql.append(placeholder_text(n));
    assert(sql@ =~= before + (clause@ + placeholder(n as int)));
}

fn append_text_clause(sql: &mut String, n: u8)
    requires
        1 <= n <= 5,
    ensures
        final(sql)@ == old(sql)@ + text_clause(n as int),
{
    let ghost before = sql@;
    let p = placeholder_text(n);
    sql.append(" AND (p.name ILIKE ");
    sql.append(p);
    sql.append(" OR p.manufacturer ILIKE ");
    sql.append(p);
    sql.append(" OR p.model ILIKE ");
    sql.append(p);
    sql.append(")");
    assert(sql@ =~= before + text_clause(n as int));
}

impl SearchFilters {
    /// The query text of the search, whose parameters are then bound in the
    /// order text, category, manufacturer, lowest price, highest price.
    pub fn sql(&self) -> (r: String)
        ensures
            r@ == search_sql_text(*self),
    {
        let mut sql = "SELECT DISTINCT p.id, p.category_id, p.name, p.manufacturer, p.model, p.specifications, p.price FROM products p LEFT JOIN categories c ON p.category_id = c.id WHERE 1=1".to_string();
        let ghost f = *self;
        let ghost n1 = count(f.text);
        let ghost n2 = n1 + count(f.category);
        let ghost n3 = n2 + count(f.manufacturer);
        let ghost n4 = n3 + count(f.min_price);
        let ghost n5 = n4 + count(f.max_price);
        let mut n: u8 = 0;
        let ghost acc = search_base();
        if self.text {
            n = n + 1;
            append_text_clause(&mut sql, n);
        }
        proof {
            acc = acc + when(f.text, text_clause(n1));
        }
        assert(sql@ == acc && n == n1);
        if self.category {
            n = n + 1;
            append_clause(&mut sql, " AND c.slug = ", n);
        }
        proof {
            acc = acc + when(f.category, category_clause(n2));
        }
        assert(sql@ == acc && n == n2);
        if self.manufacturer {
            n = n + 1;
            append_clause(&mut sql, " AND p.manufacturer ILIKE ", n);
        }
        proof {
            acc = acc + when(f.manufacturer, manufacturer_clause(n3));
        }
        assert(sql@ == acc && n == n3);
        if self.min_price {
            n = n + 1;
            append_clause(&mut sql, " AND p.price >= ", n);
        }
        proof {
            acc = acc + when(f.min_price, min_price_clause(n4));
        }
        assert(sql@ == acc && n == n4);
        if self.max_price {
            n = n + 1;
            append_clause(&mut sql, " AND p.price <= ", n);
        }
        proof {
            acc = acc + when(f.max_price, max_price_clause(n5));
        }
        assert(sql@ == acc);
        sql.append(" ORDER BY p.name");
        sql
    }
}

/// The pattern that matches any text containing `s`.
pub fn contains_pattern(s: &str) -> (r: String)
    ensures
        r@ == "%"@ + s@ + "%"@,
{
    "%".to_string().concat(s).concat("%")
}

} // verus!
