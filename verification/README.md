# CAPE-OPEN data layer for COBIA, verified with Verus

CAPE-OPEN specifies software interfaces between process modelling
environments and process modelling components; CO-LaN's COBIA is a platform
independent object model and request broker for them. This crate holds the
Rust side of the CAPE-OPEN data types that cross those interfaces, with
contracts that Verus proves:

- strings (`cape_string_impl`, `cape_string`, `cape_string_const`), including
  case insensitive constants and hash keys, and a map with case insensitive
  lookup (`cape_string_map`);
- values (`cape_value_impl`, `cape_value`);
- arrays of reals, integers, bytes, booleans, enumeration values, strings and
  values (`cape_array*`), as input views, output views, vectors, slices and a
  single real;
- the provider traits through which any of these is passed as input or output
  (`cape_data_traits`, `cape_data_from_provider`);
- the enumerations (`cobia_enums`), the registration and creation flag sets
  (`cape_flags`), identifiers (`cape_uuid`) and errors (`cape_error`,
  `cape_error_impl`), and their text (`cape_display`).

Modelling choices:

- a CAPE-OPEN character is a Unicode scalar value (`char`); lowercasing and
  uppercasing go through std's Unicode mappings, named in `cape_text`;
- a real is kept as the 64 bits of its IEEE 754 double: the library stores and
  moves reals but never computes with them; equality of reals follows IEEE 754
  (`real_equal`); where a value or an array of values is displayed, the text
  of each real is handed in by the caller, and everything else about the
  display is proved;
- an output view refers to the object that receives what is written, so that
  every write through a view is a write to that object, as the contracts of the
  provider traits state.

Calls into the COBIA runtime itself (registry, PMC enumeration, error
descriptions, interface reference counting) are not part of this crate.
