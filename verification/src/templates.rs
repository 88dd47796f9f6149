//! The fixed texts that a generated project is made of.

use vstd::prelude::*;

verus! {

/// The skeleton of `agent.py`, in the notation of the Tera template engine.
///
/// It has three slots: `tool_imports`, a list that is joined by `", "` into
/// the import line; `tool_instances`, a list whose items are written out with
/// `", "` between them inside the brackets of `tools=[..]`; and `model_id`, a
/// text. It calls no function of the engine and includes no other template.
pub const PY_AGENT_TEMPLATE: &'static str = r#"import os
from dotenv import load_dotenv
from smolagents import InferenceClientModel, CodeAgent, {{ tool_imports | join(sep=", ") }}

# Load environment variables from .env file
load_dotenv()

def create_agent():
    """Create and return a configured smolagents instance."""
    hf_token = os.getenv("HUGGINGFACEHUB_API_TOKEN")
    if not hf_token:
        raise ValueError("HUGGINGFACEHUB_API_TOKEN environment variable not set")

    model = InferenceClientModel(
        model_id="{{ model_id }}",
        token=hf_token
    )

    agent = CodeAgent(
        tools=[{% for t in tool_instances %}{{ t }}{% if not loop.last %}, {% endif %}{% endfor %}],
        model=model,
    )
    return agent
"#;

/// The whole of `cli.py`: a chat loop around the agent. It reads a line,
/// leaves on `exit`, `quit` or `q` in any case, passes over an empty line and
/// hands anything else to the agent; the end of input or an interrupt ends it
/// with a farewell, and an agent that cannot be made ends the process with
/// status 1.
pub const PY_CLI_TEMPLATE: &'static str = r#"#!/usr/bin/env python3
"""
Interactive CLI for the smolagent.
Provides a classic chat interface with input/output loop.
"""

import sys
from agent import create_agent


def print_banner():
    """Print welcome banner."""
    print("=" * 60)
    print("HuggingFace Smolagent CLI")
    print("=" * 60)
    print("Type your requests and press Enter.")
    print("Type 'exit', 'quit', or press Ctrl+C to exit.")
    print("=" * 60)
    print()


def main():
    """Run the interactive CLI loop."""
    try:
        # Initialize agent once at startup
        print("Initializing agent...")
        agent = create_agent()
        print("Agent ready!\n")

        print_banner()

        # Main interaction loop
        while True:
            try:
                # Get user input
                user_input = input("\nYou: ").strip()

                # Check for exit commands
                if user_input.lower() in ["exit", "quit", "q"]:
                    print("\nGoodbye!")
                    break

                # Skip empty inputs
                if not user_input:
                    continue

                # Run agent with user input
                print("\nAgent: ", end="", flush=True)
                result = agent.run(user_input)
                print(result)

            except KeyboardInterrupt:
                print("\n\nGoodbye!")
                break
            except EOFError:
                print("\n\nGoodbye!")
                break

    except Exception as e:
        print(f"\nError initializing agent: {e}", file=sys.stderr)
        sys.exit(1)


if __name__ == "__main__":
    main()
"#;

/// The whole of `requirements.txt`: the packages that the generated code needs.
pub const REQUIREMENTS: &'static str = "smolagents\npython-dotenv\nddgs\n";

/// The whole of `.env.example`: the one variable that the generated agent
/// reads at its start, left without a value.
pub const ENV_EXAMPLE: &'static str = "# Put your Hugging Face token here\nHUGGINGFACEHUB_API_TOKEN=\n";

/// The name of the agent definition file.
pub const AGENT_FILE: &'static str = "agent.py";

/// The name of the chat front-end file.
pub const CLI_FILE: &'static str = "cli.py";

/// The name of the dependency manifest.
pub const REQUIREMENTS_FILE: &'static str = "requirements.txt";

/// The name of the environment template file.
pub const ENV_FILE: &'static str = ".env.example";

} // verus!
