# nub

Two building blocks of a JavaScript runtime, written in Rust and proved with
Verus.

- `html_rewriter`: a streaming HTML rewriter. An engine collects handlers for CSS
  selectors and for the document, feeds the document through `lol_html` and hands
  each matched unit to a script host as a token that is valid for one handler
  call.
- `backend`: the choice of the sandbox backend for a child process, and the
  report of every confinement axis that is not enforced.

`src/` is the library. `html_rewriter::model` holds the mathematical models of
the document units, `html_rewriter::native` what is relied on of `lol_html`, and
`html_rewriter::laws` what is proved across functions. `tests/` runs the library
with `lol_html` linked. `app/` binds it to the JavaScript engine through `napi`
and to `std::process::Command`.
