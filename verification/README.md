# niri_input

The input rules of the niri compositor, written and proved in Verus.

An input event becomes a sequence of effects on the rest of the compositor. Where a rule hangs on
something that only the running compositor knows, the library asks a question and goes on with
the answer:

1. `State::process_input_event` takes an event and gives the effects that come first.
2. `State::query` gives the open question, if the event is not done.
3. `State::resume` takes the answer and gives the effects that come next. `State::accepts` tells
   beforehand whether the event can go on with an answer.

`src/` is the verified library:

| Module | Contents |
| --- | --- |
| `config`, `event`, `geometry`, `effect` | the data that goes in and out |
| `keysyms`, `binds` | from a key press to the action that is bound to it |
| `act` | carrying an action out; what a locked session allows |
| `pointer`, `axis`, `tablet`, `gesture` | the other kinds of input |
| `step`, `state` | the points at which an event waits, and going on from them |
| `script` | what comes of an event as a whole, and the proof that stepping through it gives that |
| `account` | the same with the questions, and the order of questions and effects |
| `laws` | what holds of the rules as a whole |

`app/` joins the library to smithay: it turns backend events into those of the library, answers
the questions and carries the effects out. Floating-point arithmetic on positions and scroll
amounts is done there.

The only facts taken on trust are the numbers of three keysyms (`src/keysyms.rs`). The library reads
them from `xkeysym`, not from smithay's `keysyms`, which has the same numbers: a program that links
smithay also needs libxkbcommon, which the rules have no use for.
