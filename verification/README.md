# pydantic_core (URL validators)

The `url` and `multi-host-url` validators of pydantic-core, and the settings of its `bool`
validator, as a Verus-verified library.

- `src/parsed_url.rs`: a URL as the `url` crate parses it, held as the parts the validators
  read, and the trusted calls into the `url` crate (parse, set host/port/path, messages).
- `src/scheme_set.rs`: the `ahash::AHashSet` of allowed schemes, seen by its contents.
- `src/validators/url.rs`: URL parsing in strict and lax mode, the multi-host splitter,
  substitution of default host/port/path, the validators and the laws proved of them.
- `src/validators.rs`: the validation state (strictness in force, exactness of the match).
- `src/validators/literal.rs`: how expected values are listed in errors and names.
- `src/validators/bool.rs`: the `bool` validator's settings.
- `app/lib.rs`: the Python module (pyo3): schemas from dicts, inputs from Python objects.
