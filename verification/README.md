# railmap

The deciding parts of a railway map renderer, verified with Verus.

A railway map is described in a small language: statements that assign
variables and call procedures with expressions as arguments. Features carry
symbols such as `:second:closed:cat:ac15` that classify the railway they
show and configure how they are drawn.

## Layout

* `src/` is the verified library.
  * `source`, `lexer`, `parser` and `ast` parse the map description
    language. Every parser is specified by a spec function on the
    characters of the text, and the executable parser is proved to agree
    with it, including the positions it records and where errors are
    reported.
  * `symbols` is the set of symbols attached to a feature.
  * `class` reads a railway class off symbols and completes it from the
    class of the surrounding scope; `library`, `feature`, `features` and
    `map` hold the other rules that symbols select, function and symbol
    tables, render parameters, color codes, and drawing stages.
  * `import::path` assembles the nodes of a path from the ways of an OSM
    relation, handed over as plain values.
  * Laws about these, such as that completing a class is associative or
    that skipping white space twice equals skipping it once, are proof
    functions next to the code they speak of.
* `tests/` runs the library on concrete values.
* `app/` is a command line program that reads the configuration and
  parses the map files of the selected regions, reporting errors. It also
  holds the floating point values that go with the classes, tensions,
  colors and detail levels.
