# unioncollections

A verified union vector: `UnionVec<T, U>` holds elements of one member `T` of a
union of types `U` (a tuple such as `(A, B)`). The vector can switch, for all
elements at once, to another member named by a selector (`Type1`, `Type2`,
`Type3`): `change_to`, `map`, `filter_map`, and, into a plain `Vec`, `into_vec`,
`map_into_vec`, `flat_map_into_vec`.

The elements live in a `Vec<T>`. The vector's capacity is a count of union
slots (slots that could hold any member of `U`): it models one buffer of union
slots kept across changes of member type, and it is what `capacity` reports and
what the contracts speak of. The `Vec<T>` reserves room for that many elements
where a capacity is given (`with_capacity`, `into_data`), and the conversions
into a plain `Vec` reserve room for as many elements as the bytes of the slot
count hold; the operations that change the member type build a new `Vec`.

- `src/layout.rs`: the slot layout of a union and the member selectors.
- `src/capacity.rs`: the slot count of a vector, how it grows on a push,
  and how many elements of another type the bytes of that many slots hold.
- `src/unionvec.rs`: the vector and its operations, with their contracts.
- `src/laws.rs`: properties that relate several operations.
