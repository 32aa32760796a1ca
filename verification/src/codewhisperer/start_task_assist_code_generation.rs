//! The input of the operation that starts a code generation task.

use vstd::prelude::*;

use crate::codewhisperer::types::{Intent, IntentContext, TaskAssistPlanStep, WorkspaceState};
use crate::model::ConversationState;
use crate::views::{referent, text_of, view_of};

verus! {

/// The request to start a code generation task.
#[derive(Debug, PartialEq)]
pub struct StartTaskAssistCodeGenerationInput {
    /// The state of the chat conversation.
    pub conversation_state: Option<ConversationState>,
    /// The workspace state that was uploaded for the request.
    pub workspace_state: Option<WorkspaceState>,
    /// The steps of the plan.
    pub task_assist_plan: Option<Vec<TaskAssistPlanStep>>,
    /// The identifier of this code generation within the conversation.
    pub code_generation_id: Option<String>,
    /// The identifier of the code generation that is current in the conversation.
    pub current_code_generation_id: Option<String>,
    /// What the request is for.
    pub intent: Option<Intent>,
    /// Detail that goes with the intent.
    pub intent_context: Option<IntentContext>,
    /// The profile under which the request is made.
    pub profile_arn: Option<String>,
}

/// The steps that an optional plan holds: none where there is no plan.
pub open spec fn steps_of(plan: Option<Vec<TaskAssistPlanStep>>) -> Seq<TaskAssistPlanStep> {
    match plan {
        Some(steps) => steps@,
        None => Seq::empty(),
    }
}

impl StartTaskAssistCodeGenerationInput {
    /// The state of the chat conversation.
    pub fn conversation_state(&self) -> (r: Option<&ConversationState>)
        ensures
            referent(r) == self.conversation_state,
    {
        self.conversation_state.as_ref()
    }

    /// The workspace state that was uploaded for the request.
    pub fn workspace_state(&self) -> (r: Option<&WorkspaceState>)
        ensures
            referent(r) == self.workspace_state,
    {
        self.workspace_state.as_ref()
    }

    /// The steps of the plan. Where no plan was sent, this is the empty list; to tell
    /// the two apart, read the field.
    pub fn task_assist_plan(&self) -> (r: &[TaskAssistPlanStep])
        ensures
            r@ == steps_of(self.task_assist_plan),
    {
        match &self.task_assist_plan {
            Some(steps) => steps.as_slice(),
            None => &[],
        }
    }

    /// The identifier of this code generation within the conversation.
    pub fn code_generation_id(&self) -> (r: Option<&str>)
        ensures
            text_of(r) == view_of(self.code_generation_id),
    {
        match &self.code_generation_id {
            Some(text) => Some(text.as_str()),
            None => None,
        }
    }

    /// The identifier of the code generation that is current in the conversation.
    pub fn current_code_generation_id(&self) -> (r: Option<&str>)
        ensures
            text_of(r) == view_of(self.current_code_generation_id),
    {
        match &self.current_code_generation_id {
            Some(text) => Some(text.as_str()),
            None => None,
        }
    }

    /// What the request is for.
    pub fn intent(&self) -> (r: Option<&Intent>)
        ensures
            referent(r) == self.intent,
    {
        self.intent.as_ref()
    }

    /// Detail that goes with the intent.
    pub fn intent_context(&self) -> (r: Option<&IntentContext>)
        ensures
            referent(r) == self.intent_context,
    {
        self.intent_context.as_ref()
    }

    /// The profile under which the request is made.
    pub fn profile_arn(&self) -> (r: Option<&str>)
        ensures
            text_of(r) == view_of(self.profile_arn),
    {
        match &self.profile_arn {
            Some(text) => Some(text.as_str()),
            None => None,
        }
    }

    /// A builder with nothing set.
    pub fn builder() -> (r: StartTaskAssistCodeGenerationInputBuilder)
        ensures
            r == StartTaskAssistCodeGenerationInputBuilder::empty(),
    {
        StartTaskAssistCodeGenerationInputBuilder {
            conversation_state: None,
            workspace_state: None,
            task_assist_plan: None,
            code_generation_id: None,
            current_code_generation_id: None,
            intent: None,
            intent_context: None,
            profile_arn: None,
        }
    }
}

/// A builder for [`StartTaskAssistCodeGenerationInput`].
#[derive(Debug, PartialEq)]
pub struct StartTaskAssistCodeGenerationInputBuilder {
    pub conversation_state: Option<ConversationState>,
    pub workspace_state: Option<WorkspaceState>,
    pub task_assist_plan: Option<Vec<TaskAssistPlanStep>>,
    pub code_generation_id: Option<String>,
    pub current_code_generation_id: Option<String>,
    pub intent: Option<Intent>,
    pub intent_context: Option<IntentContext>,
    pub profile_arn: Option<String>,
}

impl Default for StartTaskAssistCodeGenerationInputBuilder {
    fn default() -> (r: Self)
        ensures
            r == StartTaskAssistCodeGenerationInputBuilder::empty(),
    {
        StartTaskAssistCodeGenerationInputBuilder {
            conversation_state: None,
            workspace_state: None,
            task_assist_plan: None,
            code_generation_id: None,
            current_code_generation_id: None,
            intent: None,
            intent_context: None,
            profile_arn: None,
        }
    }
}

impl StartTaskAssistCodeGenerationInputBuilder {
    /// The builder with nothing set.
    pub open spec fn empty() -> StartTaskAssistCodeGenerationInputBuilder {
        StartTaskAssistCodeGenerationInputBuilder {
            conversation_state: None,
            workspace_state: None,
            task_assist_plan: None,
            code_generation_id: None,
            current_code_generation_id: None,
            intent: None,
            intent_context: None,
            profile_arn: None,
        }
    }

    /// Sets the state of the chat conversation. This field is required.
    pub fn conversation_state(self, input: ConversationState) -> (r: Self)
        ensures
            r.conversation_state == Some(input),
            r.workspace_state == self.workspace_state,
            r.task_assist_plan == self.task_assist_plan,
            r.code_generation_id == self.code_generation_id,
            r.current_code_generation_id == self.current_code_generation_id,
            r.intent == self.intent,
            r.intent_context == self.intent_context,
            r.profile_arn == self.profile_arn,
    {
        StartTaskAssistCodeGenerationInputBuilder {
            conversation_state: Some(input),
            workspace_state: self.workspace_state,
            task_assist_plan: self.task_assist_plan,
            code_generation_id: self.code_generation_id,
            current_code_generation_id: self.current_code_generation_id,
            intent: self.intent,
            intent_context: self.intent_context,
            profile_arn: self.profile_arn,
        }
    }

    /// Sets or clears the state of the chat conversation.
    pub fn set_conversation_state(self, input: Option<ConversationState>) -> (r: Self)
        ensures
            r.conversation_state == input,
            r.workspace_state == self.workspace_state,
            r.task_assist_plan == self.task_assist_plan,
            r.code_generation_id == self.code_generation_id,
            r.current_code_generation_id == self.current_code_generation_id,
            r.intent == self.intent,
            r.intent_context == self.intent_context,
            r.profile_arn == self.profile_arn,
    {
        StartTaskAssistCodeGenerationInputBuilder {
            conversation_state: input,
            workspace_state: self.workspace_state,
            task_assist_plan: self.task_assist_plan,
            code_generation_id: self.code_generation_id,
            current_code_generation_id: self.current_code_generation_id,
            intent: self.intent,
            intent_context: self.intent_context,
            profile_arn: self.profile_arn,
        }
    }

    /// What was set as the state of the chat conversation.
    pub fn get_conversation_state(&self) -> (r: &Option<ConversationState>)
        ensures
            *r == self.conversation_state,
    {
        &self.conversation_state
    }

    /// Sets the workspace state that was uploaded for the request. This field is required.
    pub fn workspace_state(self, input: WorkspaceState) -> (r: Self)
        ensures
            r.workspace_state == Some(input),
            r.conversation_state == self.conversation_state,
            r.task_assist_plan == self.task_assist_plan,
            r.code_generation_id == self.code_generation_id,
            r.current_code_generation_id == self.current_code_generation_id,
            r.intent == self.intent,
            r.intent_context == self.intent_context,
            r.profile_arn == self.profile_arn,
    {
        StartTaskAssistCodeGenerationInputBuilder {
            conversation_state: self.conversation_state,
            workspace_state: Some(input),
            task_assist_plan: self.task_assist_plan,
            code_generation_id: self.code_generation_id,
            current_code_generation_id: self.current_code_generation_id,
            intent: self.intent,
            intent_context: self.intent_context,
            profile_arn: self.profile_arn,
        }
    }

    /// Sets or clears the workspace state that was uploaded for the request.
    pub fn set_workspace_state(self, input: Option<WorkspaceState>) -> (r: Self)
        ensures
            r.workspace_state == input,
            r.conversation_state == self.conversation_state,
            r.task_assist_plan == self.task_assist_plan,
            r.code_generation_id == self.code_generation_id,
            r.current_code_generation_id == self.current_code_generation_id,
            r.intent == self.intent,
            r.intent_context == self.intent_context,
            r.profile_arn == self.profile_arn,
    {
        StartTaskAssistCodeGenerationInputBuilder {
            conversation_state: self.conversation_state,
            workspace_state: input,
            task_assist_plan: self.task_assist_plan,
            code_generation_id: self.code_generation_id,
            current_code_generation_id: self.current_code_generation_id,
            intent: self.intent,
            intent_context: self.intent_context,
            profile_arn: self.profile_arn,
        }
    }

    /// What was set as the workspace state that was uploaded for the request.
    pub fn get_workspace_state(&self) -> (r: &Option<WorkspaceState>)
        ensures
            *r == self.workspace_state,
    {
        &self.workspace_state
    }

    /// Appends one step to the plan, which is started if there was none.
    pub fn task_assist_plan(self, input: TaskAssistPlanStep) -> (r: Self)
        ensures
            r.task_assist_plan is Some,
            steps_of(r.task_assist_plan) == steps_of(self.task_assist_plan).push(input),
            r.conversation_state == self.conversation_state,
            r.workspace_state == self.workspace_state,
            r.code_generation_id == self.code_generation_id,
            r.current_code_generation_id == self.current_code_generation_id,
            r.intent == self.intent,
            r.intent_context == self.intent_context,
            r.profile_arn == self.profile_arn,
    {
        let mut steps = match self.task_assist_plan {
            Some(steps) => steps,
            None => Vec::new(),
        };
        steps.push(input);
        StartTaskAssistCodeGenerationInputBuilder {
            conversation_state: self.conversation_state,
            workspace_state: self.workspace_state,
            task_assist_plan: Some(steps),
            code_generation_id: self.code_generation_id,
            current_code_generation_id: self.current_code_generation_id,
            intent: self.intent,
            intent_context: self.intent_context,
            profile_arn: self.profile_arn,
        }
    }

    /// Sets or clears the steps of the plan.
    pub fn set_task_assist_plan(self, input: Option<Vec<TaskAssistPlanStep>>) -> (r: Self)
        ensures
            r.task_assist_plan == input,
            r.conversation_state == self.conversation_state,
            r.workspace_state == self.workspace_state,
            r.code_generation_id == self.code_generation_id,
            r.current_code_generation_id == self.current_code_generation_id,
            r.intent == self.intent,
            r.intent_context == self.intent_context,
            r.profile_arn == self.profile_arn,
    {
        StartTaskAssistCodeGenerationInputBuilder {
            conversation_state: self.conversation_state,
            workspace_state: self.workspace_state,
            task_assist_plan: input,
            code_generation_id: self.code_generation_id,
            current_code_generation_id: self.current_code_generation_id,
            intent: self.intent,
            intent_context: self.intent_context,
            profile_arn: self.profile_arn,
        }
    }

    /// What was set as the steps of the plan.
    pub fn get_task_assist_plan(&self) -> (r: &Option<Vec<TaskAssistPlanStep>>)
        ensures
            *r == self.task_assist_plan,
    {
        &self.task_assist_plan
    }

    /// Sets the identifier of this code generation within the conversation.
    pub fn code_generation_id(self, input: &str) -> (r: Self)
        ensures
            view_of(r.code_generation_id) == Some(input@),
            r.conversation_state == self.conversation_state,
            r.workspace_state == self.workspace_state,
            r.task_assist_plan == self.task_assist_plan,
            r.current_code_generation_id == self.current_code_generation_id,
            r.intent == self.intent,
            r.intent_context == self.intent_context,
            r.profile_arn == self.profile_arn,
    {
        StartTaskAssistCodeGenerationInputBuilder {
            conversation_state: self.conversation_state,
            workspace_state: self.workspace_state,
            task_assist_plan: self.task_assist_plan,
            code_generation_id: Some(input.to_owned()),
            current_code_generation_id: self.current_code_generation_id,
            intent: self.intent,
            intent_context: self.intent_context,
            profile_arn: self.profile_arn,
        }
    }

    /// Sets or clears the identifier of this code generation within the conversation.
    pub fn set_code_generation_id(self, input: Option<String>) -> (r: Self)
        ensures
            r.code_generation_id == input,
            r.conversation_state == self.conversation_state,
            r.workspace_state == self.workspace_state,
            r.task_assist_plan == self.task_assist_plan,
            r.current_code_generation_id == self.current_code_generation_id,
            r.intent == self.intent,
            r.intent_context == self.intent_context,
            r.profile_arn == self.profile_arn,
    {
        StartTaskAssistCodeGenerationInputBuilder {
            conversation_state: self.conversation_state,
            workspace_state: self.workspace_state,
            task_assist_plan: self.task_assist_plan,
            code_generation_id: input,
            current_code_generation_id: self.current_code_generation_id,
            intent: self.intent,
            intent_context: self.intent_context,
            profile_arn: self.profile_arn,
        }
    }

    /// What was set as the identifier of this code generation within the conversation.
    pub fn get_code_generation_id(&self) -> (r: &Option<String>)
        ensures
            *r == self.code_generation_id,
    {
        &self.code_generation_id
    }

    /// Sets the identifier of the code generation that is current in the conversation.
    pub fn current_code_generation_id(self, input: &str) -> (r: Self)
        ensures
            view_of(r.current_code_generation_id) == Some(input@),
            r.conversation_state == self.conversation_state,
            r.workspace_state == self.workspace_state,
            r.task_assist_plan == self.task_assist_plan,
            r.code_generation_id == self.code_generation_id,
            r.intent == self.intent,
            r.intent_context == self.intent_context,
            r.profile_arn == self.profile_arn,
    {
        StartTaskAssistCodeGenerationInputBuilder {
            conversation_state: self.conversation_state,
            workspace_state: self.workspace_state,
            task_assist_plan: self.task_assist_plan,
            code_generation_id: self.code_generation_id,
            current_code_generation_id: Some(input.to_owned()),
            intent: self.intent,
            intent_context: self.intent_context,
            profile_arn: self.profile_arn,
        }
    }

    /// Sets or clears the identifier of the code generation that is current in the conversation.
    pub fn set_current_code_generation_id(self, input: Option<String>) -> (r: Self)
        ensures
            r.current_code_generation_id == input,
            r.conversation_state == self.conversation_state,
            r.workspace_state == self.workspace_state,
            r.task_assist_plan == self.task_assist_plan,
            r.code_generation_id == self.code_generation_id,
            r.intent == self.intent,
            r.intent_context == self.intent_context,
            r.profile_arn == self.profile_arn,
    {
        StartTaskAssistCodeGenerationInputBuilder {
            conversation_state: self.conversation_state,
            workspace_state: self.workspace_state,
            task_assist_plan: self.task_assist_plan,
            code_generation_id: self.code_generation_id,
            current_code_generation_id: input,
            intent: self.intent,
            intent_context: self.intent_context,
            profile_arn: self.profile_arn,
        }
    }

    /// What was set as the identifier of the code generation that is current in the conversation.
    pub fn get_current_code_generation_id(&self) -> (r: &Option<String>)
        ensures
            *r == self.current_code_generation_id,
    {
        &self.current_code_generation_id
    }

    /// Sets what the request is for.
    pub fn intent(self, input: Intent) -> (r: Self)
        ensures
            r.intent == Some(input),
            r.conversation_state == self.conversation_state,
            r.workspace_state == self.workspace_state,
            r.task_assist_plan == self.task_assist_plan,
            r.code_generation_id == self.code_generation_id,
            r.current_code_generation_id == self.current_code_generation_id,
            r.intent_context == self.intent_context,
            r.profile_arn == self.profile_arn,
    {
        StartTaskAssistCodeGenerationInputBuilder {
            conversation_state: self.conversation_state,
            workspace_state: self.workspace_state,
            task_assist_plan: self.task_assist_plan,
            code_generation_id: self.code_generation_id,
            current_code_generation_id: self.current_code_generation_id,
            intent: Some(input),
            intent_context: self.intent_context,
            profile_arn: self.profile_arn,
        }
    }

    /// Sets or clears what the request is for.
    pub fn set_intent(self, input: Option<Intent>) -> (r: Self)
        ensures
            r.intent == input,
            r.conversation_state == self.conversation_state,
            r.workspace_state == self.workspace_state,
            r.task_assist_plan == self.task_assist_plan,
            r.code_generation_id == self.code_generation_id,
            r.current_code_generation_id == self.current_code_generation_id,
            r.intent_context == self.intent_context,
            r.profile_arn == self.profile_arn,
    {
        StartTaskAssistCodeGenerationInputBuilder {
            conversation_state: self.conversation_state,
            workspace_state: self.workspace_state,
            task_assist_plan: self.task_assist_plan,
            code_generation_id: self.code_generation_id,
            current_code_generation_id: self.current_code_generation_id,
            intent: input,
            intent_context: self.intent_context,
            profile_arn: self.profile_arn,
        }
    }

    /// What was set as what the request is for.
    pub fn get_intent(&self) -> (r: &Option<Intent>)
        ensures
            *r == self.intent,
    {
        &self.intent
    }

    /// Sets detail that goes with the intent.
    pub fn intent_context(self, input: IntentContext) -> (r: Self)
        ensures
            r.intent_context == Some(input),
            r.conversation_state == self.conversation_state,
            r.workspace_state == self.workspace_state,
            r.task_assist_plan == self.task_assist_plan,
            r.code_generation_id == self.code_generation_id,
            r.current_code_generation_id == self.current_code_generation_id,
            r.intent == self.intent,
            r.profile_arn == self.profile_arn,
    {
        StartTaskAssistCodeGenerationInputBuilder {
            conversation_state: self.conversation_state,
            workspace_state: self.workspace_state,
            task_assist_plan: self.task_assist_plan,
            code_generation_id: self.code_generation_id,
            current_code_generation_id: self.current_code_generation_id,
            intent: self.intent,
            intent_context: Some(input),
            profile_arn: self.profile_arn,
        }
    }

    /// Sets or clears detail that goes with the intent.
    pub fn set_intent_context(self, input: Option<IntentContext>) -> (r: Self)
        ensures
            r.intent_context == input,
            r.conversation_state == self.conversation_state,
            r.workspace_state == self.workspace_state,
            r.task_assist_plan == self.task_assist_plan,
            r.code_generation_id == self.code_generation_id,
            r.current_code_generation_id == self.current_code_generation_id,
            r.intent == self.intent,
            r.profile_arn == self.profile_arn,
    {
        StartTaskAssistCodeGenerationInputBuilder {
            conversation_state: self.conversation_state,
            workspace_state: self.workspace_state,
            task_assist_plan: self.task_assist_plan,
            code_generation_id: self.code_generation_id,
            current_code_generation_id: self.current_code_generation_id,
            intent: self.intent,
            intent_context: input,
            profile_arn: self.profile_arn,
        }
    }

    /// What was set as detail that goes with the intent.
    pub fn get_intent_context(&self) -> (r: &Option<IntentContext>)
        ensures
            *r == self.intent_context,
    {
        &self.intent_context
    }

    /// Sets the profile under which the request is made.
    pub fn profile_arn(self, input: &str) -> (r: Self)
        ensures
            view_of(r.profile_arn) == Some(input@),
            r.conversation_state == self.conversation_state,
            r.workspace_state == self.workspace_state,
            r.task_assist_plan == self.task_assist_plan,
            r.code_generation_id == self.code_generation_id,
            r.current_code_generation_id == self.current_code_generation_id,
            r.intent == self.intent,
            r.intent_context == self.intent_context,
    {
        StartTaskAssistCodeGenerationInputBuilder {
            conversation_state: self.conversation_state,
            workspace_state: self.workspace_state,
            task_assist_plan: self.task_assist_plan,
            code_generation_id: self.code_generation_id,
            current_code_generation_id: self.current_code_generation_id,
            intent: self.intent,
            intent_context: self.intent_context,
            profile_arn: Some(input.to_owned()),
        }
    }

    /// Sets or clears the profile under which the request is made.
    pub fn set_profile_arn(self, input: Option<String>) -> (r: Self)
        ensures
            r.profile_arn == input,
            r.conversation_state == self.conversation_state,
            r.workspace_state == self.workspace_state,
            r.task_assist_plan == self.task_assist_plan,
            r.code_generation_id == self.code_generation_id,
            r.current_code_generation_id == self.current_code_generation_id,
            r.intent == self.intent,
            r.intent_context == self.intent_context,
    {
        StartTaskAssistCodeGenerationInputBuilder {
            conversation_state: self.conversation_state,
            workspace_state: self.workspace_state,
            task_assist_plan: self.task_assist_plan,
            code_generation_id: self.code_generation_id,
            current_code_generation_id: self.current_code_generation_id,
            intent: self.intent,
            intent_context: self.intent_context,
            profile_arn: input,
        }
    }

    /// What was set as the profile under which the request is made.
    pub fn get_profile_arn(&self) -> (r: &Option<String>)
        ensures
            *r == self.profile_arn,
    {
        &self.profile_arn
    }

    /// Builds the input from what was set. No field is required, so this
    /// always succeeds.
    pub fn build(self) -> (r: Result<
        StartTaskAssistCodeGenerationInput,
        aws_smithy_types::error::operation::BuildError,
    >)
        ensures
            r is Ok,
            r->Ok_0.conversation_state == self.conversation_state,
            r->Ok_0.workspace_state == self.workspace_state,
            r->Ok_0.task_assist_plan == self.task_assist_plan,
            r->Ok_0.code_generation_id == self.code_generation_id,
            r->Ok_0.current_code_generation_id == self.current_code_generation_id,
            r->Ok_0.intent == self.intent,
            r->Ok_0.intent_context == self.intent_context,
            r->Ok_0.profile_arn == self.profile_arn,
    {
        Ok(
            StartTaskAssistCodeGenerationInput {
                conversation_state: self.conversation_state,
                workspace_state: self.workspace_state,
                task_assist_plan: self.task_assist_plan,
                code_generation_id: self.code_generation_id,
                current_code_generation_id: self.current_code_generation_id,
                intent: self.intent,
                intent_context: self.intent_context,
                profile_arn: self.profile_arn,
            },
        )
    }
}

} // verus!
