//! Paging: what a page of a listing is asked for and what comes back.

use vstd::prelude::*;
use vstd::string::{StrSliceExecFns, StringExecFns};
use crate::utils::{
    clone_texts, decimal, find_char, spec_find_char, str_equal, str_to_lowercase, str_trim, texts,
    to_lowercase, trim, u64_to_string,
};

verus! {

/// The order in which a listing is sorted by one key.
#[derive(Debug)]
pub enum SortingOrder {
    Ascending(String),
    Descending(String),
    NoOrder,
}

/// What a sorting order says: whether it ascends, and by which key; nothing
/// for no order.
pub open spec fn sorting_order_view(order: SortingOrder) -> Option<(bool, Seq<char>)> {
    match order {
        SortingOrder::Ascending(key) => Some((true, key@)),
        SortingOrder::Descending(key) => Some((false, key@)),
        SortingOrder::NoOrder => None,
    }
}

/// The direction that the word `order` names: `asc` and `ascending` ascend,
/// `desc`, `dsc` and `descending` descend, and nothing else names a
/// direction.
pub open spec fn spec_direction(order: Seq<char>) -> Option<bool> {
    if order == "asc"@ || order == "ascending"@ {
        Some(true)
    } else if order == "desc"@ || order == "dsc"@ || order == "descending"@ {
        Some(false)
    } else {
        None
    }
}

/// The order that the key `key` and the word `order` stand for.
pub open spec fn spec_from_parts(key: Seq<char>, order: Seq<char>) -> Option<(bool, Seq<char>)> {
    match spec_direction(order) {
        Some(ascending) => Some((ascending, key)),
        None => None,
    }
}

/// The order that `value` is written for: the key before the first comma,
/// without the white space around it, and after the comma the word for the
/// direction, in any case and with any white space around it. Without a
/// comma, or with another word, there is no order.
pub open spec fn spec_sorting_order(value: Seq<char>) -> Option<(bool, Seq<char>)> {
    match spec_find_char(value, ',') {
        Some(i) => spec_from_parts(
            str_trim(value.subrange(0, i)),
            str_trim(str_to_lowercase(value.subrange(i + 1, value.len() as int))),
        ),
        None => None,
    }
}

/// How an order is written in a query: the key and `ASC` or `DESC`.
pub open spec fn spec_order_sql(order: Option<(bool, Seq<char>)>) -> Option<Seq<char>> {
    match order {
        Some((true, key)) => Some(key + " ASC"@),
        Some((false, key)) => Some(key + " DESC"@),
        None => None,
    }
}

impl SortingOrder {
    /// The order that the key `key` and the word `order` stand for, where
    /// the key is already trimmed and the word is trimmed and in lower case.
    pub fn from_parts(key: &str, order: &str) -> (r: Self)
        ensures
            sorting_order_view(r) == spec_from_parts(key@, order@),
    {
        if str_equal(order, "asc") || str_equal(order, "ascending") {
            SortingOrder::Ascending(String::from_str(key))
        } else if str_equal(order, "desc") || str_equal(order, "dsc") || str_equal(
            order,
            "descending",
        ) {
            SortingOrder::Descending(String::from_str(key))
        } else {
            SortingOrder::NoOrder
        }
    }

    /// Reads an order written as `key,direction`.
    pub fn from(value: &str) -> (r: Self)
        ensures
            sorting_order_view(r) == spec_sorting_order(value@),
    {
        match find_char(value, ',') {
            Some(i) => {
                let n = value.unicode_len();
                let key = trim(value.substring_char(0, i));
                let lowered = to_lowercase(value.substring_char(i + 1, n));
                let order = trim(lowered.as_str());
                Self::from_parts(key, order)
            },
            None => SortingOrder::NoOrder,
        }
    }

    /// How the order is written in a query; nothing for no order.
    pub fn to_sql_string(&self) -> (r: Option<String>)
        ensures
            (match r {
                Some(text) => Some(text@),
                None => None,
            }) == spec_order_sql(sorting_order_view(*self)),
    {
        match self {
            SortingOrder::Ascending(key) => {
                let mut text = key.clone();
                text.append(" ASC");
                Some(text)
            },
            SortingOrder::Descending(key) => {
                let mut text = key.clone();
                text.append(" DESC");
                Some(text)
            },
            SortingOrder::NoOrder => None,
        }
    }

    /// Whether this is no order.
    pub fn is_no_order(&self) -> (r: bool)
        ensures
            r == (self is NoOrder),
    {
        matches!(self, SortingOrder::NoOrder)
    }
}

/// Which page of a listing is asked for: how many rows to take, how many to
/// skip, and the orders to sort by, each written as `key,direction`.
#[derive(Debug)]
pub struct PageRequest {
    pub take: u64,
    pub skip: u64,
    pub sort: Vec<String>,
}

/// The orders among `sort` that are orders, each as it is written in a
/// query, separated by a comma and a space.
pub open spec fn spec_order_list(sort: Seq<Seq<char>>) -> Seq<char>
    decreases sort.len(),
{
    if sort.len() == 0 {
        Seq::empty()
    } else {
        let earlier = spec_order_list(sort.drop_last());
        match spec_order_sql(spec_sorting_order(sort.last())) {
            Some(text) => if earlier.len() == 0 {
                text
            } else {
                earlier + ", "@ + text
            },
            None => earlier,
        }
    }
}

/// The clause that sorts by `sort`: nothing where `sort` holds no order.
pub open spec fn spec_order_clause(sort: Seq<Seq<char>>) -> Seq<char> {
    if spec_order_list(sort).len() == 0 {
        Seq::empty()
    } else {
        "ORDER BY "@ + spec_order_list(sort) + "\n"@
    }
}

/// The query `sql` restricted to the page: the clause that sorts, then the
/// limit and the offset.
pub open spec fn spec_page_sql(sql: Seq<char>, take: u64, skip: u64, sort: Seq<Seq<char>>) -> Seq<
    char,
> {
    sql + spec_order_clause(sort) + "LIMIT "@ + decimal(take as nat) + " OFFSET "@ + decimal(
        skip as nat,
    )
}

impl PageRequest {
    /// The query `sql` restricted to this page.
    pub fn to_sql_string(&self, sql: &str) -> (r: String)
        ensures
            r@ == spec_page_sql(sql@, self.take, self.skip, texts(self.sort@)),
    {
        let ghost sort = texts(self.sort@);
        let mut list = String::new();
        let mut i: usize = 0;
        while i < self.sort.len()
            invariant
                i <= self.sort.len(),
                sort == texts(self.sort@),
                list@ == spec_order_list(sort.take(i as int)),
            decreases self.sort.len() - i,
        {
            proof {
                assert(sort.take(i + 1).drop_last() =~= sort.take(i as int));
                assert(sort.take(i + 1).last() == self.sort[i as int]@);
            }
            let order = SortingOrder::from(self.sort[i].as_str());
            if let Some(text) = order.to_sql_string() {
                if list.as_str().unicode_len() != 0 {
                    list.append(", ");
                }
                list.append(text.as_str());
                proof {
                    reveal_strlit(" ASC");
                    reveal_strlit(" DESC");
                    assert(text@.len() > 0);
                }
            }
            i += 1;
        }
        assert(sort.take(self.sort.len() as int) =~= sort);
        let mut text = String::from_str(sql);
        if list.as_str().unicode_len() != 0 {
            text.append("ORDER BY ");
            text.append(list.as_str());
            text.append("\n");
        }
        let limit = u64_to_string(self.take);
        let offset = u64_to_string(self.skip);
        text.append("LIMIT ");
        text.append(limit.as_str());
        text.append(" OFFSET ");
        text.append(offset.as_str());
        assert(text@ =~= spec_page_sql(sql@, self.take, self.skip, sort));
        text
    }
}

impl Clone for PageRequest {
    fn clone(&self) -> (r: Self)
        ensures
            r.take == self.take,
            r.skip == self.skip,
            texts(r.sort@) == texts(self.sort@),
    {
        PageRequest { take: self.take, skip: self.skip, sort: clone_texts(&self.sort) }
    }
}

/// One page of a listing: its rows, the number of rows in the whole
/// listing, whether rows follow this page, and what was asked for.
#[derive(Debug)]
pub struct Page<T> {
    pub content: Vec<T>,
    pub total: u64,
    pub has_next: bool,
    pub request: PageRequest,
}

impl<T> Page<T> {
    /// Rows follow the page where the listing holds more rows than the page
    /// skips and takes.
    pub open spec fn spec_has_next(total: u64, request: PageRequest) -> bool {
        total - request.take - request.skip > 0
    }

    /// The page that holds `content` out of a listing of `total` rows.
    pub fn new(content: Vec<T>, total: u64, request: PageRequest) -> (r: Self)
        ensures
            r.content == content,
            r.total == total,
            r.request == request,
            r.has_next == Self::spec_has_next(total, request),
    {
        let has_next = total > request.take && total - request.take > request.skip;
        Page { content, total, has_next, request }
    }

    /// The same page with each row turned into another by `transform`.
    pub fn map<F, R>(self, transform: F) -> (r: Page<R>) where F: Fn(&T) -> R
        requires
            forall|i: int| 0 <= i < self.content.len() ==> call_requires(transform, (&self.content[i],)),
        ensures
            r.total == self.total,
            r.has_next == self.has_next,
            r.request == self.request,
            r.content.len() == self.content.len(),
            forall|i: int|
                0 <= i < self.content.len() ==> call_ensures(
                    transform,
                    (&self.content[i],),
                    #[trigger] r.content[i],
                ),
    {
        let mut content: Vec<R> = Vec::new();
        let mut i: usize = 0;
        while i < self.content.len()
            invariant
                i <= self.content.len(),
                content.len() == i,
                forall|j: int|
                    0 <= j < self.content.len() ==> call_requires(transform, (&self.content[j],)),
                forall|j: int|
                    0 <= j < i ==> call_ensures(
                        transform,
                        (&self.content[j],),
                        #[trigger] content[j],
                    ),
            decreases self.content.len() - i,
        {
            content.push(transform(&self.content[i]));
            i += 1;
        }
        Page { content, total: self.total, has_next: self.has_next, request: self.request }
    }
}

} // verus!
