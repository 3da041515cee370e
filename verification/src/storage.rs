use vstd::prelude::*;

verus! {

/// A UTF-8 string with room for `N` bytes, held in place.
#[verifier::external_type_specification]
#[verifier::external_body]
pub struct ExString<const N: usize>(heapless::String<N>);

/// A vector with room for `N` elements, held in place.
#[verifier::external_type_specification]
#[verifier::external_body]
#[verifier::reject_recursive_types(T)]
pub struct ExVec<T, const N: usize>(heapless::Vec<T, N>);

/// The characters that `string` holds: those of any `str` that compares equal to it.
pub open spec fn text<const N: usize>(string: heapless::String<N>) -> Seq<char> {
    (choose|other: &str| #[trigger]
        vstd::std_specs::cmp::PartialEqSpec::eq_spec(&string, other))@
}

/// The elements that `vector` holds, in their order.
///
/// It stands for them through the slices that compare equal to the vector, and is used for `u8` and
/// `Declaration` only: bytes, and values whose derived `==` holds when all their fields are the same.
pub open spec fn elements<E: PartialEq, const N: usize>(vector: heapless::Vec<E, N>) -> Seq<E> {
    (choose|other: &[E]| #[trigger]
        vstd::std_specs::cmp::PartialEqSpec::eq_spec(&vector, other))@
}

/// `heapless::String::new`: a string that holds nothing.
pub assume_specification<const N: usize>[ heapless::String::<N>::new ]() -> (string:
    heapless::String<N>)
    ensures
        text(string) == Seq::<char>::empty(),
;

/// `heapless::String::try_from(&str)`: a copy of `chars`, made exactly when its bytes fit.
#[verifier::external_body]
pub(crate) fn string_from<const N: usize>(chars: &str) -> (string: Result<
    heapless::String<N>,
    (),
>)
    ensures
        string is Ok <==> crate::text::utf8_len(chars@) <= N,
        string matches Ok(string) ==> text(string) == chars@,
{
    heapless::String::try_from(chars)
}

/// `heapless::String::clear`: forgets everything the string holds.
#[verifier::external_body]
pub(crate) fn string_clear<const N: usize>(string: &mut heapless::String<N>)
    ensures
        text(*final(string)) == Seq::<char>::empty(),
{
    string.clear()
}

/// `heapless::String::push_str`: appends `chars` exactly when the bytes of both fit, and changes
/// nothing otherwise.
#[verifier::external_body]
pub(crate) fn string_push_str<const N: usize>(
    string: &mut heapless::String<N>,
    chars: &str,
) -> (pushed: Result<(), ()>)
    ensures
        pushed is Ok <==> crate::text::utf8_len(text(*old(string))) + crate::text::utf8_len(chars@)
            <= N,
        text(*final(string)) == if pushed is Ok {
            text(*old(string)) + chars@
        } else {
            text(*old(string))
        },
{
    string.push_str(chars)
}

/// `heapless::String::as_str`: the characters of the string, whose bytes fit in it.
#[verifier::external_body]
pub(crate) fn string_as_str<const N: usize>(string: &heapless::String<N>) -> (chars: &str)
    ensures
        chars@ == text(*string),
        crate::text::utf8_len(chars@) <= N,
{
    string.as_str()
}

/// `heapless::Vec::new`: a vector that holds nothing.
#[verifier::external_body]
pub(crate) fn vec_new<E: PartialEq, const N: usize>() -> (vector: heapless::Vec<E, N>)
    ensures
        elements(vector) == Seq::<E>::empty(),
{
    heapless::Vec::new()
}

/// `heapless::Vec::from_slice`: a copy of the bytes `slice`, made exactly when they fit.
#[verifier::external_body]
pub(crate) fn vec_from<const N: usize>(slice: &[u8]) -> (vector: Result<heapless::Vec<u8, N>, ()>)
    ensures
        vector is Ok <==> slice@.len() <= N,
        vector matches Ok(vector) ==> elements(vector) == slice@,
{
    heapless::Vec::from_slice(slice)
}

/// `heapless::Vec::as_slice`: the elements of the vector, no more than it has room for.
#[verifier::external_body]
pub(crate) fn vec_as_slice<E: PartialEq, const N: usize>(vector: &heapless::Vec<E, N>) -> (slice:
    &[E])
    ensures
        slice@ == elements(*vector),
        slice@.len() <= N,
{
    vector.as_slice()
}

/// `heapless::Vec::push`: appends `element` exactly when there is room, and changes nothing
/// otherwise.
#[verifier::external_body]
pub(crate) fn vec_push<E: PartialEq, const N: usize>(
    vector: &mut heapless::Vec<E, N>,
    element: E,
) -> (pushed: Result<(), E>)
    ensures
        pushed is Ok <==> elements(*old(vector)).len() < N,
        pushed matches Err(refused) ==> refused == element,
        elements(*final(vector)) == if pushed is Ok {
            elements(*old(vector)).push(element)
        } else {
            elements(*old(vector))
        },
{
    vector.push(element)
}

/// `heapless::Vec::swap_remove`: takes the element at `index` out, whose place the last one takes.
#[verifier::external_body]
pub(crate) fn vec_swap_remove<E: PartialEq, const N: usize>(
    vector: &mut heapless::Vec<E, N>,
    index: usize,
) -> (removed: E)
    requires
        index < elements(*old(vector)).len(),
    ensures
        removed == elements(*old(vector))[index as int],
        elements(*final(vector)) == elements(*old(vector)).update(
            index as int,
            elements(*old(vector)).last(),
        ).drop_last(),
{
    vector.swap_remove(index)
}

/// A map with room for a power of two of entries, held in place.
#[verifier::external_type_specification]
#[verifier::external_body]
#[verifier::reject_recursive_types(K)]
#[verifier::reject_recursive_types(V)]
#[verifier::reject_recursive_types(S)]
pub struct ExIndexMap<K, V, S, const N: usize>(heapless::IndexMap<K, V, S, N>);

/// The hash function of [`IdMap`].
#[verifier::external_type_specification]
#[verifier::external_body]
pub struct ExFnvHasher(hash32::FnvHasher);

/// What makes the hash functions of [`IdMap`].
#[verifier::external_type_specification]
#[verifier::external_body]
#[verifier::reject_recursive_types(H)]
pub struct ExBuildHasherDefault<H>(hash32::BuildHasherDefault<H>);

/// Up to sixteen texts of up to 256 bytes, each under its own number.
pub type IdMap = heapless::FnvIndexMap<u32, heapless::String<256>, 16>;

/// The texts that `map` holds, by number.
pub uninterp spec fn entries(map: IdMap) -> Map<u32, Seq<char>>;

/// `heapless::FnvIndexMap::new`: a map without entries.
#[verifier::external_body]
pub(crate) fn id_map_new() -> (map: IdMap)
    ensures
        (entries(map) == Map::<u32, Seq<char>>::empty()),
{
    heapless::FnvIndexMap::new()
}

/// `heapless::FnvIndexMap::insert`: sets the text under `id`. Only a new number that finds sixteen
/// others is refused, and then nothing changes. No call panics.
#[verifier::external_body]
pub(crate) fn id_map_insert(
    map: &mut IdMap,
    id: u32,
    value: heapless::String<256>,
) -> (inserted: Result<Option<heapless::String<256>>, (u32, heapless::String<256>)>)
    ensures
        inserted is Ok <==> entries(*old(map)).contains_key(id) || entries(*old(map)).dom().len()
            < 16,
        entries(*final(map)) == if inserted is Ok {
            entries(*old(map)).insert(id, text(value))
        } else {
            entries(*old(map))
        },
    no_unwind
{
    map.insert(id, value)
}

/// `heapless::FnvIndexMap::remove`: takes the text under `id` out, if there is one. No call panics.
#[verifier::external_body]
pub(crate) fn id_map_remove(map: &mut IdMap, id: u32) -> (removed: Option<heapless::String<256>>)
    ensures
        removed is Some <==> entries(*old(map)).contains_key(id),
        removed matches Some(removed) ==> text(removed) == entries(*old(map))[id],
        entries(*final(map)) == entries(*old(map)).remove(id),
    no_unwind
{
    map.remove(&id)
}

/// `heapless::FnvIndexMap::get`: the text under `id`, if there is one.
#[verifier::external_body]
pub(crate) fn id_map_get(map: &IdMap, id: u32) -> (found: Option<&heapless::String<256>>)
    ensures
        found is Some <==> entries(*map).contains_key(id),
        found matches Some(found) ==> text(*found) == entries(*map)[id],
{
    map.get(&id)
}

/// `heapless::FnvIndexMap::len`: the number of entries.
#[verifier::external_body]
pub(crate) fn id_map_len(map: &IdMap) -> (len: usize)
    ensures
        len == entries(*map).dom().len(),
{
    map.len()
}

} // verus!
