# herdr-projects decisions

The verified core of the herdr projects plugin: what an action of herdr's
action menu or one of its popups does with what it was handed, and when a
running agent pane may be adopted into a project.

- `src/text.rs`: whitespace, trimming and string equality, as `str::trim` goes.
- `src/error.rs`: the refusals and the message each one shows.
- `src/actions.rs`: actions and popups (`decide_action`, `decide_pane`), the
  handoff between them, questions and answers.
- `src/adopt.rs`: the adoption check (`adoptable_agent`) and the records that
  adoption creates.
- `src/thread_flow.rs`, `src/workspace_flow.rs`: adopting a pane into a
  project, and continuing a workspace as a new project, as steps that the
  caller drives; nothing is created before every refusal had its chance.
- `app/`: the loop around those steps, file and terminal I/O, and the JSON
  form of the handoff, over a `Plugin` trait that stands for the rest of the
  program.
