# habitat_sup

The error library of the Habitat Supervisor, verified with Verus.

- `src/error.rs`: the kinds of error (`Error`), the error with its log key and
  source location (`SupError`), and the message and description of each kind,
  specified by `message_spec` and `description_spec`.
- `src/ident.rs`: package identifiers, named in package-not-found messages.
- `src/text.rs`: joining lists of strings and the quoted (`{:?}`) form of a string.
- `src/paint.rs`: bold red painting through `ansi_term`.
- `app/lib.rs`: `Display` and `std::error::Error` for the errors, and
  conversions from the errors of std, glob, handlebars, notify and toml.
