use vstd::prelude::*;

verus! {

/// Language in which list entries are requested from the device.
pub const LIST_LANGUAGE: &'static str = "en";

/// The list positions `[index, index + size)`.
pub open spec fn window(index: int, size: int) -> Set<int> {
    Set::new(|k: int| index <= k < index + size)
}

/// One page of a network/USB list: `size` entries of the list of source
/// `input`, starting at position `index`, in language `lang`.
#[derive(Clone, Debug)]
pub struct ListRequest {
    pub ip: String,
    pub input: String,
    pub index: u32,
    pub size: u32,
    pub lang: String,
}

impl ListRequest {
    /// The list positions that this page covers.
    pub open spec fn rows(&self) -> Set<int> {
        window(self.index as int, self.size as int)
    }

    /// The page that starts where this one ends, with the same size, or
    /// `None` where its start does not fit in a `u32`.
    pub fn next_page(&self) -> (r: Option<ListRequest>)
        ensures
            r is None <==> self.index + self.size > u32::MAX,
            r matches Some(n) ==> n.ip == self.ip && n.input == self.input && n.lang == self.lang
                && n.index == self.index + self.size && n.size == self.size,
    {
        match self.index.checked_add(self.size) {
            Some(index) => Some(
                ListRequest {
                    ip: self.ip.clone(),
                    input: self.input.clone(),
                    index,
                    size: self.size,
                    lang: self.lang.clone(),
                },
            ),
            None => None,
        }
    }
}

/// Asks for `size` entries of the list of source `input`, from `index` on.
/// The window is passed to the device as given; entries come in the
/// library's list language.
pub fn net_usb_get_list_info(ip: String, input: String, index: u32, size: u32) -> (r: ListRequest)
    ensures
        r.ip == ip,
        r.input == input,
        r.index == index,
        r.size == size,
        r.lang@ == LIST_LANGUAGE@,
{
    ListRequest { ip, input, index, size, lang: LIST_LANGUAGE.to_owned() }
}

/// Consecutive pages never overlap: where `second` starts at the end of
/// `first` and has its size, the two cover disjoint positions, and
/// together exactly the `2 * size` positions from `first.index` on.
pub proof fn consecutive_pages_disjoint(first: ListRequest, second: ListRequest)
    requires
        second.index == first.index + first.size,
        second.size == first.size,
    ensures
        first.rows().disjoint(second.rows()),
        first.rows() + second.rows() == window(first.index as int, 2 * first.size),
{
    assert(first.rows() + second.rows() =~= window(first.index as int, 2 * first.size));
}

} // verus!
