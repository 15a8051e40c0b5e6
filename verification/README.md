# tgs_readline

The decision core of an interactive line reader: vi insert and normal modes, history browsing,
completion with a menu, commands of several lines, and the bookkeeping of a prompt painter.
It is written in Verus, and every function of `src/` is verified against its contract, except
the wrapper `text::width`, which is trusted.

`src/` decides and performs nothing. A reading is a conversation: `Line::read_events` takes an
answer and gives a step, that is, the effects to carry out and the next question. `Painter::paint`
takes what is to be drawn and gives the steps that draw it, with what to note behind each.

`app/` is the other side of the conversation: it reads events from the terminal, carries out the
effects, and draws. The shell, the edited text, the menu, the completer, the highlighter, the
prompt and the suggestions are reached through the traits of `app/host.rs`.

What the proofs take on trust: the display width of a text comes from the `unicode-width` crate,
and `String::push` puts a character at the end of a string.
