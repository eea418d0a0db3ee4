# dbgify

Step-wise debugging as an attribute: a function marked with `dbgify` pauses at
each `bp!()` and lets the user type the name of an argument to see its value.

- `src/` is the verified library: the table of inspectable variables and the
  stepper's decisions (`collect`, `meta`), the model of a signature's
  arguments and types (`syntax`), the split of the arguments and the names the
  instrumentation derives from them (`args`), the rewriting of the body
  (`visit`) and the variable slot (`vars`). Each module states its laws as
  public proof functions.
- `app/` reads syntax trees into the library's values and writes the rewritten
  function back out, (de)serialises the table, and runs the terminal loop of
  the stepper.
