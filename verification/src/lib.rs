//! Verified data layer of a Rust binding for CO-LaN's COBIA middleware.
//!
//! CAPE-OPEN specifies software interfaces between process modelling
//! environments and process modelling components; COBIA is a platform
//! independent object model and request broker for those interfaces.
//! This crate holds the Rust side of the CAPE-OPEN data types (strings,
//! values, arrays), a map with case insensitive string keys, the
//! enumerations, the flag sets and the error types. Each public function
//! states what it returns or changes in its contract, over mathematical
//! models of these types.
#![allow(non_snake_case)]
#![allow(non_camel_case_types)]

pub mod cape_types;
pub mod cape_display;
pub mod cobia_enums;

pub mod cape_uuid;
pub mod cape_text;
pub mod cape_data_traits;
pub mod cape_string_impl;
pub mod cape_string_const;
pub mod cape_error;
pub mod cape_error_impl;
pub mod cape_string;
pub mod cape_data_from_provider;
pub mod cape_value_impl;
pub mod cape_value;
pub mod cape_array;
pub mod cape_array_real;
pub mod cape_array_integer;
pub mod cape_array_byte;
pub mod cape_array_boolean;
pub mod cape_array_enumeration;
pub mod cape_array_vec;
pub mod cape_array_slice;
pub mod cape_array_real_scalar;
pub mod cape_array_string;
pub mod cape_array_value;
pub mod cape_array_object_vec;
pub mod cape_window_id;
pub mod cape_string_map;
pub mod cape_flags;
