# printrs

Printing documents on the printers that CUPS manages, as a verified library and a small
command-line program around it.

- `src/` is the library, verified with Verus:
  - `options.rs`: the print options, their readable names and values, and their encoding as
    CUPS option names and values;
  - `decimal.rs`: decimal notation of integers, used for numeric option values and file names;
  - `dest.rs`: the CUPS destinations as plain values;
  - `printer.rs`: printers, their options, and their construction from destinations;
  - `job.rs`: a print job as a state machine whose actions are the calls into CUPS and whose
    events are their outcomes; it checks and adds the options, creates the job, uploads the
    documents and closes the job, and cancels a created job that fails;
  - `cli.rs`: the order in which printers are listed, and the conversion of command-line
    arguments into print options;
  - `error.rs`, `consts.rs`: errors, and the constants of CUPS.
- `app/` is the program: argument parsing with `clap`, colored output, the C interface of CUPS,
  and the loop that performs the actions of a print job.
