# aws_lc

The verified core of AWS-LC's Rust support.

- `src/rsa/`: RSA keys. Which keys are accepted, what their public halves are, and in which order
  the C library is called to generate a key, to build one from its components, to sign and to
  verify. The calls themselves are left to the caller, who hands back their replies; the library
  says which objects are to be released when, and proves that none is leaked or released twice.
- `src/builder/`: the program that builds the C library and its Rust bindings. The settings, the
  arguments of the tools, the order of the steps and every printed line.
- `src/text.rs`: the text operations that both need.
- `app/`: ordinary Rust around the library. It talks to the operating system and to the C library.
- `tests/`: tests of the library.

The contracts speak of mathematical values: a string is the sequence of its characters, a path is a
base with the components joined to it, the environment is a map from names to values.
